use alert_relay::card::{create_card, event_line, Card, ACTIVITY_IMAGE, CARD_CONTEXT, CARD_TYPE};
use alert_relay::events::get_message_string;
use alert_relay::json::JsonValue;

fn s(text: &str) -> JsonValue {
    JsonValue::Str(text.to_string())
}

fn obj(members: Vec<(&str, JsonValue)>) -> JsonValue {
    JsonValue::Object(members.into_iter().map(|(k, v)| (k.to_string(), v)).collect())
}

fn fact_names(card: &Card) -> Vec<String> {
    card.section.facts.iter().map(|f| f.name.clone()).collect()
}

fn subtitle_text(card: &Card) -> Option<String> {
    match &card.section.activity_subtitle {
        JsonValue::Str(t) => Some(t.clone()),
        _ => None,
    }
}

#[test]
fn open_alert_with_known_event() {
    let alert = obj(vec![
        ("status", s("OPEN")),
        ("created", s("2020-01-01T00:00:00Z")),
        ("eventTypeName", s("AUTOMATION_AGENT_DOWN")),
    ]);
    let card = create_card(alert);
    assert_eq!(card.card_type, CARD_TYPE);
    assert_eq!(card.card_type, "MessageCard");
    assert_eq!(card.context, CARD_CONTEXT);
    assert_eq!(card.title, "New Alert Triggered");
    assert_eq!(card.theme_color, "D7000C");
    assert_eq!(subtitle_text(&card), Some("2020-01-01T00:00:00Z".to_string()));
    assert_eq!(card.section.activity_title, "Automation is down");
    assert_eq!(card.summary, "[New Alert Triggered]: Automation is down");
    assert_eq!(card.section.activity_image, ACTIVITY_IMAGE);
    assert!(card.section.facts.is_empty());
}

#[test]
fn closed_alert_subtitle_comes_from_resolved() {
    let alert = obj(vec![
        ("status", s("CLOSED")),
        ("created", s("c")),
        ("updated", s("u")),
        ("resolved", s("r")),
        ("eventTypeName", s("HOST_UP")),
    ]);
    let card = create_card(alert);
    assert_eq!(card.title, "Alert Closed");
    assert_eq!(card.theme_color, "12924F");
    assert_eq!(subtitle_text(&card), Some("r".to_string()));
    assert_eq!(card.summary, "[Alert Closed]: Host is up");
}

#[test]
fn closed_alert_without_resolved_copies_null() {
    let alert = obj(vec![("status", s("CLOSED")), ("updated", s("u"))]);
    let card = create_card(alert);
    assert!(matches!(card.section.activity_subtitle, JsonValue::Null));
}

#[test]
fn closed_alert_resolved_of_another_kind_is_copied() {
    let alert = obj(vec![
        ("status", s("CLOSED")),
        ("updated", s("u")),
        ("resolved", JsonValue::Number("17".to_string())),
    ]);
    let card = create_card(alert);
    match &card.section.activity_subtitle {
        JsonValue::Number(n) => assert_eq!(n, "17"),
        other => panic!("unexpected subtitle {:?}", other),
    }
}

#[test]
fn closed_alert_without_updated_keeps_empty_subtitle() {
    let alert = obj(vec![("status", s("CLOSED")), ("created", s("c")), ("resolved", s("r"))]);
    let card = create_card(alert);
    assert_eq!(subtitle_text(&card), Some(String::new()));
}

#[test]
fn informational_alert() {
    let alert = obj(vec![("status", s("INFORMATIONAL")), ("created", s("c"))]);
    let card = create_card(alert);
    assert_eq!(card.title, "Informational Alert");
    assert_eq!(card.theme_color, "12924F");
    assert_eq!(subtitle_text(&card), Some("c".to_string()));
}

#[test]
fn other_status_is_its_own_title() {
    let alert = obj(vec![
        ("status", s("TRACKING")),
        ("created", s("c")),
        ("eventTypeName", s("NO_PRIMARY")),
    ]);
    let card = create_card(alert);
    assert_eq!(card.title, "TRACKING");
    assert_eq!(card.theme_color, "0078D7");
    assert_eq!(subtitle_text(&card), Some("c".to_string()));
    assert_eq!(card.summary, "[TRACKING]: Replica set has no primary");
}

#[test]
fn status_of_another_kind_leaves_template() {
    let alert = obj(vec![
        ("status", JsonValue::Bool(true)),
        ("created", s("c")),
        ("eventTypeName", s("HOST_DOWN")),
    ]);
    let card = create_card(alert);
    assert_eq!(card.title, "");
    assert_eq!(card.theme_color, "");
    assert_eq!(subtitle_text(&card), Some(String::new()));
    assert_eq!(card.summary, "[]: Host is down");
}

#[test]
fn title_with_quote_stands_plain_in_summary() {
    let alert = obj(vec![("status", s("a\"b")), ("eventTypeName", s("HOST_DOWN"))]);
    let card = create_card(alert);
    assert_eq!(card.summary, "[a\"b]: Host is down");
}

#[test]
fn unknown_event_code() {
    let alert = obj(vec![("status", s("OPEN")), ("eventTypeName", s("SOMETHING_NEW"))]);
    let card = create_card(alert);
    assert_eq!(card.section.activity_title, "SOMETHING_NEW");
    assert_eq!(card.summary, "[New Alert Triggered]: Unknown event type");
}

#[test]
fn missing_event_type_name() {
    let alert = obj(vec![("status", s("OPEN")), ("replicaSetName", s("rs0"))]);
    let card = create_card(alert);
    assert_eq!(card.section.activity_title, "Missing eventTypeName");
    assert_eq!(card.summary, "Error, unknown eventTypeName");
    assert_eq!(card.title, "New Alert Triggered");
}

#[test]
fn event_type_name_of_another_kind_counts_as_missing() {
    let alert = obj(vec![("eventTypeName", JsonValue::Number("3".to_string()))]);
    let card = create_card(alert);
    assert_eq!(card.section.activity_title, "Missing eventTypeName");
    assert_eq!(card.summary, "Error, unknown eventTypeName");
}

#[test]
fn alert_that_is_not_an_object() {
    let card = create_card(JsonValue::Array(vec![s("OPEN")]));
    assert_eq!(card.title, "");
    assert_eq!(card.section.activity_title, "Missing eventTypeName");
    assert!(card.section.facts.is_empty());
}

#[test]
fn replica_set_outranks_cluster() {
    let alert = obj(vec![
        ("clusterName", s("c1")),
        ("replicaSetName", s("rs0")),
        ("groupId", s("g")),
    ]);
    let card = create_card(alert);
    assert_eq!(fact_names(&card), vec!["Replicaset"]);
    assert_eq!(card.section.facts[0].value, "\"rs0\"");
}

#[test]
fn cluster_outranks_group() {
    let alert = obj(vec![("groupId", s("g")), ("clusterName", s("c1"))]);
    let card = create_card(alert);
    assert_eq!(fact_names(&card), vec!["Cluster Name"]);
    assert_eq!(card.section.facts[0].value, "\"c1\"");
}

#[test]
fn group_when_alone() {
    let alert = obj(vec![("groupId", s("g")), ("replicaSetName", JsonValue::Null)]);
    let card = create_card(alert);
    assert_eq!(fact_names(&card), vec!["Group"]);
    assert_eq!(card.section.facts[0].value, "\"g\"");
}

#[test]
fn facts_keep_fixed_order() {
    let alert = obj(vec![
        ("typeName", s("HOST_METRIC")),
        ("metricName", s("ASSERT_REGULAR")),
        ("hostnameAndPort", s("db1:27017")),
    ]);
    let card = create_card(alert);
    assert_eq!(fact_names(&card), vec!["Server", "Metric Name", "Type"]);
    assert_eq!(card.section.facts[0].value, "\"db1:27017\"");
    assert_eq!(card.section.facts[1].value, "\"ASSERT_REGULAR\"");
    assert_eq!(card.section.facts[2].value, "\"HOST_METRIC\"");
}

#[test]
fn all_facts_in_order() {
    let alert = obj(vec![
        ("typeName", s("t")),
        ("currentValue", obj(vec![("units", s("RAW")), ("number", s("5"))])),
        ("metricName", s("m")),
        ("sourceTypeName", s("REPLICA_PRIMARY")),
        ("hostnameAndPort", s("h")),
        ("groupId", s("g")),
    ]);
    let card = create_card(alert);
    assert_eq!(
        fact_names(&card),
        vec!["Group", "Server", "Source Type", "Metric Name", "Metric Value", "Metric Unit", "Type"]
    );
    assert_eq!(card.section.facts[4].value, "\"5\"");
    assert_eq!(card.section.facts[5].value, "\"RAW\"");
}

#[test]
fn metric_value_that_is_a_number_is_skipped() {
    let alert = obj(vec![(
        "currentValue",
        obj(vec![("number", JsonValue::Number("5.5".to_string())), ("units", s("RAW"))]),
    )]);
    let card = create_card(alert);
    assert_eq!(fact_names(&card), vec!["Metric Unit"]);
}

#[test]
fn fact_value_is_json_escaped() {
    let alert = obj(vec![("hostnameAndPort", s("a\"b\\c"))]);
    let card = create_card(alert);
    assert_eq!(card.section.facts[0].value, "\"a\\\"b\\\\c\"");
}

#[test]
fn create_card_twice_gives_the_same_card() {
    let make = || {
        obj(vec![
            ("status", s("CLOSED")),
            ("updated", s("u")),
            ("resolved", s("r")),
            ("eventTypeName", s("HOST_DOWN")),
            ("clusterName", s("c")),
            ("metricName", s("m")),
        ])
    };
    let a = create_card(make());
    let b = create_card(make());
    assert_eq!(format!("{:?}", a), format!("{:?}", b));
}

#[test]
fn event_table_hits_and_misses() {
    assert_eq!(get_message_string("AUTOMATION_AGENT_DOWN"), Some("Automation is down"));
    assert_eq!(get_message_string("USER_ROLES_CHANGED_AUDIT"), Some("User had their role changed"));
    assert_eq!(
        get_message_string("HOST_SSL_CERTIFICATE_STALE"),
        Some("Host\u{2019}s SSL certificate will expire within 30 days")
    );
    assert_eq!(get_message_string("BI_CONNECTOR_UP"), Some("BI Connector is up Project"));
    assert_eq!(get_message_string("host_down"), None);
    assert_eq!(get_message_string(""), None);
}

#[test]
fn fact_value_escapes_control_characters() {
    let alert = obj(vec![("typeName", s("a\u{1}\n\t\u{7f}é"))]);
    let card = create_card(alert);
    assert_eq!(card.section.facts[0].value, "\"a\\u0001\\n\\t\u{7f}é\"");
}

#[test]
fn open_host_down_full_card() {
    let alert = obj(vec![
        ("status", s("OPEN")),
        ("created", s("2020-05-01T10:00:00Z")),
        ("eventTypeName", s("HOST_DOWN")),
        ("replicaSetName", s("rs0")),
        ("clusterName", s("Cluster0")),
        ("hostnameAndPort", s("db1:27017")),
        (
            "currentValue",
            obj(vec![("number", JsonValue::Number("12".to_string())), ("units", s("RAW"))]),
        ),
    ]);
    let card = create_card(alert);
    assert_eq!(card.title, "New Alert Triggered");
    assert_eq!(card.theme_color, "D7000C");
    assert_eq!(subtitle_text(&card), Some("2020-05-01T10:00:00Z".to_string()));
    assert_eq!(card.section.activity_title, "Host is down");
    assert_eq!(card.summary, "[New Alert Triggered]: Host is down");
    assert_eq!(fact_names(&card), vec!["Replicaset", "Server", "Metric Unit"]);
    assert_eq!(card.section.facts[0].value, "\"rs0\"");
    assert_eq!(card.section.facts[1].value, "\"db1:27017\"");
    assert_eq!(card.section.facts[2].value, "\"RAW\"");
}

#[test]
fn event_line_uses_plain_title() {
    assert_eq!(
        event_line("Alert Closed", Some("HOST_UP")),
        ("Host is up".to_string(), "[Alert Closed]: Host is up".to_string())
    );
    assert_eq!(
        event_line("X", Some("NOPE")),
        ("NOPE".to_string(), "[X]: Unknown event type".to_string())
    );
    assert_eq!(
        event_line("X", None),
        ("Missing eventTypeName".to_string(), "Error, unknown eventTypeName".to_string())
    );
}

#[test]
fn get_tells_null_member_from_missing_one() {
    let alert = obj(vec![("a", JsonValue::Null)]);
    assert!(matches!(alert.get("a"), Some(JsonValue::Null)));
    assert!(alert.get("b").is_none());
    assert!(JsonValue::Null.get("a").is_none());
}
