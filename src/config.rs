//! The channel table, loaded once, and the resolution of a request's channel.
use vstd::prelude::*;
use crate::json::{opt_view, same_text};

verus! {

/// A destination webhook address.
#[derive(Debug, Clone, PartialEq, Eq, Hash)]
pub struct Url(pub String);

impl Url {
    /// The address as text, apart from the stored entry.
    pub fn to_string(&self) -> (r: String)
        ensures
            r@ == self.0@,
    {
        self.0.clone()
    }
}

impl Default for Url {
    fn default() -> (r: Url)
        ensures
            r.0@ == "string"@,
    {
        Url("string".to_owned())
    }
}

/// One configured destination.
#[derive(Debug, Clone, PartialEq, Eq, Hash)]
pub struct ConfigEntry {
    pub url: Url,
    pub kind: String,
}

/// What a channel's entry holds: its address and its kind.
pub open spec fn entry_view(e: ConfigEntry) -> (Seq<char>, Seq<char>) {
    (e.url.0@, e.kind@)
}

/// The table that a list of entries stands for: a later entry for a name
/// replaces an earlier one.
pub open spec fn table_of(entries: Seq<(String, ConfigEntry)>) -> Map<Seq<char>, (Seq<char>, Seq<char>)>
    decreases entries.len(),
{
    if entries.len() == 0 {
        Map::empty()
    } else {
        table_of(entries.drop_last()).insert(entries.last().0@, entry_view(entries.last().1))
    }
}

/// The mapping from channel name to destination.
#[derive(Debug)]
pub struct ChannelConfig {
    entries: Vec<(String, ConfigEntry)>,
}

impl View for ChannelConfig {
    type V = Map<Seq<char>, (Seq<char>, Seq<char>)>;

    closed spec fn view(&self) -> Self::V {
        table_of(self.entries@)
    }
}

impl ChannelConfig {
    /// A table with no channel.
    pub fn new() -> (r: ChannelConfig)
        ensures
            r@ == Map::<Seq<char>, (Seq<char>, Seq<char>)>::empty(),
    {
        ChannelConfig { entries: Vec::new() }
    }

    /// Sets the entry of the channel `name`, replacing any earlier one.
    pub fn insert(&mut self, name: String, entry: ConfigEntry)
        ensures
            final(self)@ == old(self)@.insert(name@, entry_view(entry)),
    {
        self.entries.push((name, entry));
        assert(self.entries@.drop_last() =~= old(self).entries@);
    }

    /// The address of the channel `name`, as a string of its own.
    pub fn get_url(&self, name: &str) -> (r: Option<String>)
        ensures
            match r {
                Some(u) => self@.contains_key(name@) && u@ == self@[name@].0,
                None => !self@.contains_key(name@),
            },
    {
        let n = self.entries.len();
        let mut i: usize = n;
        assert(self.entries@.subrange(0, n as int) =~= self.entries@);
        while i > 0
            invariant
                n == self.entries@.len(),
                i <= n,
                self@ == table_of(self.entries@),
                table_of(self.entries@).contains_key(name@) ==> table_of(self.entries@.subrange(0, i as int)).contains_key(name@),
                table_of(self.entries@.subrange(0, i as int)).contains_key(name@) ==> (
                    table_of(self.entries@).contains_key(name@)
                    && table_of(self.entries@)[name@] == table_of(self.entries@.subrange(0, i as int))[name@]),
            decreases i,
        {
            let ghost prefix = self.entries@.subrange(0, i as int);
            assert(prefix.drop_last() =~= self.entries@.subrange(0, i as int - 1));
            assert(prefix.last() == self.entries@[i as int - 1]);
            let entry = &self.entries[i - 1];
            if same_text(entry.0.as_str(), name) {
                return Some(entry.1.url.to_string());
            }
            i = i - 1;
        }
        None
    }
}

/// The pairs of a query string, decoded, in their order.
pub uninterp spec fn form_pairs(query: Seq<char>) -> Seq<(Seq<char>, Seq<char>)>;

/// The pairs as name/value texts.
pub open spec fn pairs_view(pairs: Seq<(String, String)>) -> Seq<(Seq<char>, Seq<char>)> {
    pairs.map_values(|p: (String, String)| (p.0@, p.1@))
}

/// Relies on `url::form_urlencoded::parse` with `into_owned`: the
/// percent-decoded name/value pairs of a query string, in their order.
#[verifier::external_body]
fn decode_query(query: &str) -> (r: Vec<(String, String)>)
    ensures
        pairs_view(r@) == form_pairs(query@),
{
    url::form_urlencoded::parse(query.as_bytes()).into_owned().collect()
}

/// The pairs of the query, none when there is no query.
pub open spec fn query_pairs(query: Option<Seq<char>>) -> Seq<(Seq<char>, Seq<char>)> {
    match query {
        Some(q) => form_pairs(q),
        None => Seq::empty(),
    }
}

/// The value of the last pair named `key`: the one that a map filled from the
/// pairs in order keeps.
pub open spec fn last_value(pairs: Seq<(Seq<char>, Seq<char>)>, key: Seq<char>) -> Option<Seq<char>>
    decreases pairs.len(),
{
    if pairs.len() == 0 {
        None
    } else if pairs.last().0 == key {
        Some(pairs.last().1)
    } else {
        last_value(pairs.drop_last(), key)
    }
}

/// The channel that a request with this query asks for.
pub open spec fn channel_of(query: Option<Seq<char>>) -> Option<Seq<char>> {
    last_value(query_pairs(query), "channel"@)
}

/// The text of an optional string.
pub open spec fn opt_string_view(r: Option<String>) -> Option<Seq<char>> {
    match r {
        Some(s) => Some(s@),
        None => None,
    }
}

/// The decoded pairs of a request's query; none without a query.
pub fn params(query: Option<&str>) -> (r: Vec<(String, String)>)
    ensures
        pairs_view(r@) == query_pairs(opt_view(query)),
{
    match query {
        Some(q) => decode_query(q),
        None => {
            let r: Vec<(String, String)> = Vec::new();
            assert(pairs_view(r@) =~= Seq::empty());
            r
        },
    }
}

/// The value of the last `channel` pair.
pub fn channel_from_pairs(pairs: &Vec<(String, String)>) -> (r: Option<String>)
    ensures
        opt_string_view(r) == last_value(pairs_view(pairs@), "channel"@),
{
    let n = pairs.len();
    let mut i: usize = n;
    assert(pairs_view(pairs@).subrange(0, n as int) =~= pairs_view(pairs@));
    while i > 0
        invariant
            n == pairs@.len(),
            i <= n,
            last_value(pairs_view(pairs@), "channel"@)
                == last_value(pairs_view(pairs@).subrange(0, i as int), "channel"@),
        decreases i,
    {
        let ghost prefix = pairs_view(pairs@).subrange(0, i as int);
        assert(prefix.drop_last() =~= pairs_view(pairs@).subrange(0, i as int - 1));
        let pair = &pairs[i - 1];
        assert(prefix.last() == (pair.0@, pair.1@));
        if same_text(pair.0.as_str(), "channel") {
            return Some(pair.1.clone());
        }
        i = i - 1;
    }
    None
}

/// The channel that a request with this query asks for.
pub fn channel(query: Option<&str>) -> (r: Option<String>)
    ensures
        opt_string_view(r) == channel_of(opt_view(query)),
{
    let pairs = params(query);
    channel_from_pairs(&pairs)
}

/// Why a request's channel could not be resolved.
#[derive(Debug, Clone, PartialEq, Eq)]
pub enum ResolveError {
    /// The query has no `channel` pair.
    MissingChannel,
    /// The table has no entry for the channel named.
    UnknownChannel(String),
}

/// The address for the channel that decoded query pairs ask for.
pub fn resolve_from_pairs(pairs: &Vec<(String, String)>, config: &ChannelConfig) -> (r: Result<String, ResolveError>)
    ensures
        match last_value(pairs_view(pairs@), "channel"@) {
            None => r matches Err(ResolveError::MissingChannel),
            Some(c) => if config@.contains_key(c) {
                r matches Ok(u) && u@ == config@[c].0
            } else {
                r matches Err(ResolveError::UnknownChannel(name)) && name@ == c
            },
        },
{
    match channel_from_pairs(pairs) {
        Some(name) => match config.get_url(name.as_str()) {
            Some(url) => Ok(url),
            None => Err(ResolveError::UnknownChannel(name)),
        },
        None => Err(ResolveError::MissingChannel),
    }
}

/// The address that a request with this query is to be delivered to.
pub fn match_channel(query: Option<&str>, config: &ChannelConfig) -> (r: Result<String, ResolveError>)
    ensures
        match channel_of(opt_view(query)) {
            None => r matches Err(ResolveError::MissingChannel),
            Some(c) => if config@.contains_key(c) {
                r matches Ok(u) && u@ == config@[c].0
            } else {
                r matches Err(ResolveError::UnknownChannel(name)) && name@ == c
            },
        },
{
    let pairs = params(query);
    resolve_from_pairs(&pairs, config)
}

} // verus!
