//! The chat card that an alert becomes.
use vstd::prelude::*;
use crate::events::{event_description, get_message_string};
use crate::json::{member, opt_view, same_text, text, text_at, JsonValue};

verus! {

/// The lower-case hex digit for a value below 16.
pub open spec fn hex_digit(d: int) -> char {
    seq!['0', '1', '2', '3', '4', '5', '6', '7', '8', '9', 'a', 'b', 'c', 'd', 'e', 'f'][d]
}

/// How a JSON string literal writes one character: the quote, the backslash
/// and the control characters below U+0020 are escaped, the rest stand as they are.
pub open spec fn escape_char(c: char) -> Seq<char> {
    if c == '"' {
        seq!['\\', '"']
    } else if c == '\\' {
        seq!['\\', '\\']
    } else if c == '\x08' {
        seq!['\\', 'b']
    } else if c == '\t' {
        seq!['\\', 't']
    } else if c == '\n' {
        seq!['\\', 'n']
    } else if c == '\x0c' {
        seq!['\\', 'f']
    } else if c == '\r' {
        seq!['\\', 'r']
    } else if (c as int) < 0x20 {
        seq!['\\', 'u', '0', '0', hex_digit((c as int) / 16), hex_digit((c as int) % 16)]
    } else {
        seq![c]
    }
}

/// The characters of a string, each escaped.
pub open spec fn escaped(s: Seq<char>) -> Seq<char>
    decreases s.len(),
{
    if s.len() == 0 {
        Seq::empty()
    } else {
        escape_char(s[0]) + escaped(s.drop_first())
    }
}

/// The text of a string as a JSON string literal: quotes round the escaped characters.
pub open spec fn json_quoted(s: Seq<char>) -> Seq<char> {
    seq!['"'] + escaped(s) + seq!['"']
}

/// Relies on the `Display` impl of `serde_json::Value` (compact form): a string
/// value is written as its JSON string literal, escaped by serde_json's table.
#[verifier::external_body]
fn quote_json(s: &str) -> (r: String)
    ensures
        r@ == json_quoted(s@),
{
    serde_json::Value::String(s.to_string()).to_string()
}

pub const CARD_TYPE: &'static str = "MessageCard";

pub const CARD_CONTEXT: &'static str = "https://schema.org/extensions";

pub const ACTIVITY_IMAGE: &'static str = "https://company-30077.frontify.com/api/screen/download/eyJpZCI6MzQwMzI2NCwidmVyc2lvbiI6IjIwMTktMDgtMDIgMTk6Mjg6MDYifQ:frontify:DkJTntON9g0YByA8Q_M4vJX_XxO7je1rn7PJN6RJ_TI/?download&title_as_filename&track";

pub const GREEN: &'static str = "12924F";

pub const YELLOW: &'static str = "12924F";

pub const RED: &'static str = "D7000C";

pub const OTHER: &'static str = "0078D7";

/// One row of the card's detail section.
#[derive(Debug, Clone, PartialEq, Eq, Hash)]
pub struct FactEntry {
    pub name: String,
    pub value: String,
}

/// The one section of a card.
#[derive(Debug)]
pub struct CardSection {
    pub activity_title: String,
    pub activity_subtitle: JsonValue,
    pub activity_image: String,
    pub facts: Vec<FactEntry>,
}

/// A message card, in the shape that the chat service takes.
#[derive(Debug)]
pub struct Card {
    pub card_type: String,
    pub context: String,
    pub summary: String,
    pub theme_color: String,
    pub title: String,
    pub section: CardSection,
}

/// The text of a card, every field but the subtitle.
pub struct CardModel {
    pub card_type: Seq<char>,
    pub context: Seq<char>,
    pub summary: Seq<char>,
    pub theme_color: Seq<char>,
    pub title: Seq<char>,
    pub activity_title: Seq<char>,
    pub activity_image: Seq<char>,
    pub facts: Seq<(Seq<char>, Seq<char>)>,
}

/// The rows as name/value texts.
pub open spec fn facts_view(facts: Seq<FactEntry>) -> Seq<(Seq<char>, Seq<char>)> {
    facts.map_values(|f: FactEntry| (f.name@, f.value@))
}

impl View for Card {
    type V = CardModel;

    open spec fn view(&self) -> CardModel {
        CardModel {
            card_type: self.card_type@,
            context: self.context@,
            summary: self.summary@,
            theme_color: self.theme_color@,
            title: self.title@,
            activity_title: self.section.activity_title@,
            activity_image: self.section.activity_image@,
            facts: facts_view(self.section.facts@),
        }
    }
}

/// The card's title, from the alert's status.
pub open spec fn status_title(alert: JsonValue) -> Seq<char> {
    match text_at(alert, "status"@) {
        Some(s) => if s == "OPEN"@ {
            "New Alert Triggered"@
        } else if s == "CLOSED"@ {
            "Alert Closed"@
        } else if s == "INFORMATIONAL"@ {
            "Informational Alert"@
        } else {
            s
        },
        None => Seq::empty(),
    }
}

/// The card's theme color, from the alert's status.
pub open spec fn status_theme(alert: JsonValue) -> Seq<char> {
    match text_at(alert, "status"@) {
        Some(s) => if s == "OPEN"@ {
            RED@
        } else if s == "CLOSED"@ {
            GREEN@
        } else if s == "INFORMATIONAL"@ {
            YELLOW@
        } else {
            OTHER@
        },
        None => Seq::empty(),
    }
}

/// The member of the alert that the subtitle copies, if any. A closed alert
/// copies `resolved` when `updated` is a string: the member tested and the
/// member copied differ.
pub open spec fn subtitle_key(alert: JsonValue) -> Option<Seq<char>> {
    match text_at(alert, "status"@) {
        Some(s) => if s == "CLOSED"@ {
            if text_at(alert, "updated"@) is Some {
                Some("resolved"@)
            } else {
                None
            }
        } else if text_at(alert, "created"@) is Some {
            Some("created"@)
        } else {
            None
        },
        None => None,
    }
}

/// The subtitle is the member that `subtitle_key` names, or else the empty string.
pub open spec fn subtitle_matches(alert: JsonValue, subtitle: JsonValue) -> bool {
    match subtitle_key(alert) {
        Some(k) => subtitle == member(alert, k),
        None => text(subtitle) == Some(Seq::<char>::empty()),
    }
}

/// The section's title for an event code, when the alert has one as a string.
pub open spec fn event_title_of(code: Option<Seq<char>>) -> Seq<char> {
    match code {
        Some(c) => match event_description(c) {
            Some(d) => d,
            None => c,
        },
        None => "Missing eventTypeName"@,
    }
}

/// The summary for an event code, after the card's title.
pub open spec fn summary_of(title: Seq<char>, code: Option<Seq<char>>) -> Seq<char> {
    match code {
        Some(c) => "["@ + title + "]: "@ + match event_description(c) {
            Some(d) => d,
            None => "Unknown event type"@,
        },
        None => "Error, unknown eventTypeName"@,
    }
}

/// The section's title, from the alert's event code.
pub open spec fn event_title(alert: JsonValue) -> Seq<char> {
    event_title_of(text_at(alert, "eventTypeName"@))
}

/// The card's summary: the title and the event's description.
pub open spec fn card_summary(alert: JsonValue) -> Seq<char> {
    summary_of(status_title(alert), text_at(alert, "eventTypeName"@))
}

/// A row `name` for the member `key` of `src`, when that member is a string.
pub open spec fn fact_for(src: JsonValue, key: Seq<char>, name: Seq<char>) -> Seq<(Seq<char>, Seq<char>)> {
    match text_at(src, key) {
        Some(s) => seq![(name, json_quoted(s))],
        None => Seq::empty(),
    }
}

/// The row that places the alert: its replica set, else its cluster, else its group.
pub open spec fn scope_fact(alert: JsonValue) -> Seq<(Seq<char>, Seq<char>)> {
    if text_at(alert, "replicaSetName"@) is Some {
        fact_for(alert, "replicaSetName"@, "Replicaset"@)
    } else if text_at(alert, "clusterName"@) is Some {
        fact_for(alert, "clusterName"@, "Cluster Name"@)
    } else {
        fact_for(alert, "groupId"@, "Group"@)
    }
}

/// The card's rows, in their fixed order.
pub open spec fn card_facts(alert: JsonValue) -> Seq<(Seq<char>, Seq<char>)> {
    scope_fact(alert)
        + fact_for(alert, "hostnameAndPort"@, "Server"@)
        + fact_for(alert, "sourceTypeName"@, "Source Type"@)
        + fact_for(alert, "metricName"@, "Metric Name"@)
        + fact_for(member(alert, "currentValue"@), "number"@, "Metric Value"@)
        + fact_for(member(alert, "currentValue"@), "units"@, "Metric Unit"@)
        + fact_for(alert, "typeName"@, "Type"@)
}

/// The text of the card for `alert`.
pub open spec fn card_model(alert: JsonValue) -> CardModel {
    CardModel {
        card_type: CARD_TYPE@,
        context: CARD_CONTEXT@,
        summary: card_summary(alert),
        theme_color: status_theme(alert),
        title: status_title(alert),
        activity_title: event_title(alert),
        activity_image: ACTIVITY_IMAGE@,
        facts: card_facts(alert),
    }
}

/// `card` is the card for `alert`.
pub open spec fn is_card_for(alert: JsonValue, card: Card) -> bool {
    &&& card@ == card_model(alert)
    &&& subtitle_matches(alert, card.section.activity_subtitle)
}

/// Appends the row `name` for the member `key` of `src`, when that member is a string.
fn push_fact(facts: &mut Vec<FactEntry>, src: &JsonValue, key: &str, name: &str)
    ensures
        facts_view(final(facts)@) == facts_view(old(facts)@) + fact_for(*src, key@, name@),
{
    match src.str_at(key) {
        Some(s) => {
            let fact = FactEntry { name: name.to_owned(), value: quote_json(s) };
            facts.push(fact);
            assert(facts_view(final(facts)@) =~= facts_view(old(facts)@) + fact_for(*src, key@, name@));
        },
        None => {
            assert(facts_view(final(facts)@) =~= facts_view(old(facts)@) + fact_for(*src, key@, name@));
        },
    }
}

/// The section's title and the card's summary for an event code, given the
/// card's title.
pub fn event_line(title: &str, event_code: Option<&str>) -> (r: (String, String))
    ensures
        r.0@ == event_title_of(opt_view(event_code)),
        r.1@ == summary_of(title@, opt_view(event_code)),
{
    match event_code {
        Some(code) => {
            let mut line = "[".to_owned();
            line.append(title);
            line.append("]: ");
            match get_message_string(code) {
                Some(description) => {
                    line.append(description);
                    (description.to_owned(), line)
                },
                None => {
                    line.append("Unknown event type");
                    (code.to_owned(), line)
                },
            }
        },
        None => ("Missing eventTypeName".to_owned(), "Error, unknown eventTypeName".to_owned()),
    }
}

/// Builds the card for `alert`: its title, color and subtitle from the status,
/// its section title and summary from the event code, and its rows from the
/// members that are strings.
pub fn create_card(alert_json: JsonValue) -> (r: Card)
    ensures
        is_card_for(alert_json, r),
{
    let ghost alert = alert_json;
    // Title, theme color, and the member that the subtitle copies.
    let mut title = String::new();
    let mut theme_color = String::new();
    let mut subtitle_from: Option<&str> = None;
    match alert_json.str_at("status") {
        Some(status) => {
            if same_text(status, "OPEN") {
                title = "New Alert Triggered".to_owned();
                theme_color = RED.to_owned();
            } else if same_text(status, "CLOSED") {
                title = "Alert Closed".to_owned();
                theme_color = GREEN.to_owned();
            } else if same_text(status, "INFORMATIONAL") {
                title = "Informational Alert".to_owned();
                theme_color = YELLOW.to_owned();
            } else {
                title = status.to_owned();
                theme_color = OTHER.to_owned();
            }
            if same_text(status, "CLOSED") {
                if alert_json.str_at("updated").is_some() {
                    subtitle_from = Some("resolved");
                }
            } else if alert_json.str_at("created").is_some() {
                subtitle_from = Some("created");
            }
        },
        None => {},
    }
    // Section title and summary, from the event code.
    let (activity_title, summary) = event_line(title.as_str(), alert_json.str_at("eventTypeName"));
    // Rows, in their fixed order.
    let mut facts: Vec<FactEntry> = Vec::new();
    assert(facts_view(facts@) =~= Seq::empty());
    if alert_json.str_at("replicaSetName").is_some() {
        push_fact(&mut facts, &alert_json, "replicaSetName", "Replicaset");
    } else if alert_json.str_at("clusterName").is_some() {
        push_fact(&mut facts, &alert_json, "clusterName", "Cluster Name");
    } else {
        push_fact(&mut facts, &alert_json, "groupId", "Group");
    }
    push_fact(&mut facts, &alert_json, "hostnameAndPort", "Server");
    push_fact(&mut facts, &alert_json, "sourceTypeName", "Source Type");
    push_fact(&mut facts, &alert_json, "metricName", "Metric Name");
    match alert_json.get("currentValue") {
        Some(current) => {
            push_fact(&mut facts, current, "number", "Metric Value");
            push_fact(&mut facts, current, "units", "Metric Unit");
        },
        None => {
            let absent = JsonValue::Null;
            push_fact(&mut facts, &absent, "number", "Metric Value");
            push_fact(&mut facts, &absent, "units", "Metric Unit");
        },
    }
    push_fact(&mut facts, &alert_json, "typeName", "Type");
    assert(facts_view(facts@) =~= card_facts(alert));
    // The subtitle is taken out of the alert last, once nothing else reads it.
    let activity_subtitle = match subtitle_from {
        Some(key) => alert_json.into_member(key),
        None => JsonValue::Str(String::new()),
    };
    Card {
        card_type: CARD_TYPE.to_owned(),
        context: CARD_CONTEXT.to_owned(),
        summary,
        theme_color,
        title,
        section: CardSection {
            activity_title,
            activity_subtitle,
            activity_image: ACTIVITY_IMAGE.to_owned(),
            facts,
        },
    }
}

/// An alert without a string `eventTypeName` gets the placeholder section title
/// and summary, whatever else it holds.
pub proof fn lemma_missing_event_placeholder(alert: JsonValue, card: Card)
    requires
        is_card_for(alert, card),
        text_at(alert, "eventTypeName"@) is None,
    ensures
        card.section.activity_title@ == "Missing eventTypeName"@,
        card.summary@ == "Error, unknown eventTypeName"@,
{
}

/// A closed alert whose `updated` is a string takes its subtitle from `resolved`.
pub proof fn lemma_closed_subtitle_from_resolved(alert: JsonValue, card: Card)
    requires
        is_card_for(alert, card),
        text_at(alert, "status"@) == Some("CLOSED"@),
        text_at(alert, "updated"@) is Some,
    ensures
        card.section.activity_subtitle == member(alert, "resolved"@),
{
}

/// A replica set name outranks a cluster name: the first row names the replica
/// set, and no row is a cluster name.
pub proof fn lemma_replica_set_outranks_cluster(alert: JsonValue, card: Card)
    requires
        is_card_for(alert, card),
        text_at(alert, "replicaSetName"@) is Some,
        text_at(alert, "clusterName"@) is Some,
    ensures
        card@.facts[0] == ("Replicaset"@, json_quoted(text_at(alert, "replicaSetName"@).unwrap())),
        forall|i: int| 0 <= i < card@.facts.len() ==> card@.facts[i].0 != "Cluster Name"@,
{
    reveal_strlit("Cluster Name");
    reveal_strlit("Replicaset");
    reveal_strlit("Server");
    reveal_strlit("Source Type");
    reveal_strlit("Metric Name");
    reveal_strlit("Metric Value");
    reveal_strlit("Metric Unit");
    reveal_strlit("Type");
    let facts = card@.facts;
    assert forall|i: int| 0 <= i < facts.len() implies facts[i].0 != "Cluster Name"@ by {
        assert(facts[i].0 == "Replicaset"@ || facts[i].0 == "Server"@ || facts[i].0 == "Source Type"@
            || facts[i].0 == "Metric Name"@ || facts[i].0 == "Metric Value"@
            || facts[i].0 == "Metric Unit"@ || facts[i].0 == "Type"@);
        assert("Cluster Name"@[0] != "Replicaset"@[0]);
        assert("Cluster Name"@[0] != "Server"@[0]);
        assert("Cluster Name"@[0] != "Source Type"@[0]);
        assert("Cluster Name"@[0] != "Metric Name"@[0]);
        assert("Cluster Name"@[0] != "Metric Value"@[0]);
        assert("Cluster Name"@[0] != "Metric Unit"@[0]);
        assert("Cluster Name"@[0] != "Type"@[0]);
    }
}

/// Rows keep their fixed order: with `hostnameAndPort`, `metricName` and
/// `typeName` all strings, the Server row comes before the Metric Name row,
/// which comes before the Type row.
pub proof fn lemma_fact_order(alert: JsonValue, card: Card)
    requires
        is_card_for(alert, card),
        text_at(alert, "hostnameAndPort"@) is Some,
        text_at(alert, "metricName"@) is Some,
        text_at(alert, "typeName"@) is Some,
    ensures
        exists|i: int, j: int, k: int|
            0 <= i < j < k < card@.facts.len()
            && card@.facts[i].0 == "Server"@
            && card@.facts[j].0 == "Metric Name"@
            && card@.facts[k].0 == "Type"@,
{
    let cv = member(alert, "currentValue"@);
    let a = scope_fact(alert);
    let b = fact_for(alert, "hostnameAndPort"@, "Server"@);
    let c = fact_for(alert, "sourceTypeName"@, "Source Type"@);
    let d = fact_for(alert, "metricName"@, "Metric Name"@);
    let e = fact_for(cv, "number"@, "Metric Value"@);
    let f = fact_for(cv, "units"@, "Metric Unit"@);
    let g = fact_for(alert, "typeName"@, "Type"@);
    let facts = card@.facts;
    assert(facts == a + b + c + d + e + f + g);
    let i = a.len() as int;
    let j = i + 1 + c.len();
    let k = j + 1 + e.len() + f.len();
    assert(facts[i] == b[0]);
    assert(facts[j] == d[0]);
    assert(facts[k] == g[0]);
}

/// Building a card is a function of the alert: two cards for one alert hold the
/// same text, and the same subtitle (or both the empty string).
pub proof fn lemma_card_deterministic(alert: JsonValue, c1: Card, c2: Card)
    requires
        is_card_for(alert, c1),
        is_card_for(alert, c2),
    ensures
        c1@ == c2@,
        c1.section.activity_subtitle == c2.section.activity_subtitle
            || (text(c1.section.activity_subtitle) == Some(Seq::<char>::empty())
                && text(c2.section.activity_subtitle) == Some(Seq::<char>::empty())),
{
}

} // verus!
