//! A loosely typed JSON document, as far as the card logic reads one.
use vstd::prelude::*;

verus! {

/// A JSON value. Numbers keep their textual form; object members keep their order.
#[derive(Debug)]
pub enum JsonValue {
    Null,
    Bool(bool),
    Number(String),
    Str(String),
    Array(Vec<JsonValue>),
    Object(Vec<(String, JsonValue)>),
}

/// The value of the first member named `key`, if any.
pub open spec fn member_of(entries: Seq<(String, JsonValue)>, key: Seq<char>) -> Option<JsonValue>
    decreases entries.len(),
{
    if entries.len() == 0 {
        None
    } else if entries[0].0@ == key {
        Some(entries[0].1)
    } else {
        member_of(entries.drop_first(), key)
    }
}

/// The member named `key`, when `v` is an object that has one.
pub open spec fn lookup(v: JsonValue, key: Seq<char>) -> Option<JsonValue> {
    match v {
        JsonValue::Object(entries) => member_of(entries@, key),
        _ => None,
    }
}

/// `v[key]`: the member named `key` of an object, and `Null` for anything else.
pub open spec fn member(v: JsonValue, key: Seq<char>) -> JsonValue {
    match lookup(v, key) {
        Some(m) => m,
        None => JsonValue::Null,
    }
}

/// The text of a string value; `None` for every other kind of value.
pub open spec fn text(v: JsonValue) -> Option<Seq<char>> {
    match v {
        JsonValue::Str(s) => Some(s@),
        _ => None,
    }
}

/// The text of the member `key`, when that member is a string.
pub open spec fn text_at(v: JsonValue, key: Seq<char>) -> Option<Seq<char>> {
    text(member(v, key))
}

/// The text of an optional string.
pub open spec fn opt_view(r: Option<&str>) -> Option<Seq<char>> {
    match r {
        Some(s) => Some(s@),
        None => None,
    }
}

/// Whether two strings hold the same characters.
pub fn same_text(a: &str, b: &str) -> (r: bool)
    ensures
        r == (a@ == b@),
{
    let x = a.to_owned();
    let y = b.to_owned();
    x == y
}

/// Where the first member named `key` stands among `entries`.
fn position_of(entries: &Vec<(String, JsonValue)>, key: &str) -> (r: Option<usize>)
    ensures
        match r {
            Some(i) => i < entries@.len() && entries@[i as int].0@ == key@
                && member_of(entries@, key@) == Some(entries@[i as int].1),
            None => member_of(entries@, key@) is None,
        },
{
    let n = entries.len();
    let mut i: usize = 0;
    assert(entries@.subrange(0, n as int) =~= entries@);
    while i < n
        invariant
            n == entries@.len(),
            i <= n,
            member_of(entries@, key@) == member_of(entries@.subrange(i as int, n as int), key@),
        decreases n - i,
    {
        assert(entries@.subrange(i as int, n as int).drop_first()
            =~= entries@.subrange(i as int + 1, n as int));
        assert(entries@.subrange(i as int, n as int)[0] == entries@[i as int]);
        if same_text(entries[i].0.as_str(), key) {
            return Some(i);
        }
        i = i + 1;
    }
    None
}

impl JsonValue {
    /// The member named `key`, when `self` is an object that has one.
    pub fn get<'a>(&'a self, key: &str) -> (r: Option<&'a JsonValue>)
        ensures
            match r {
                Some(m) => lookup(*self, key@) == Some(*m),
                None => lookup(*self, key@) is None,
            },
    {
        match self {
            JsonValue::Object(entries) => match position_of(entries, key) {
                Some(i) => Some(&entries[i].1),
                None => None,
            },
            _ => None,
        }
    }

    /// `self[key]`, taken out of the document.
    pub fn into_member(self, key: &str) -> (r: JsonValue)
        ensures
            r == member(self, key@),
    {
        match self {
            JsonValue::Object(entries) => match position_of(&entries, key) {
                Some(i) => {
                    let mut entries = entries;
                    let (_, value) = entries.remove(i);
                    value
                },
                None => JsonValue::Null,
            },
            _ => JsonValue::Null,
        }
    }

    /// The text of `self[key]`, when it is a string.
    pub fn str_at<'a>(&'a self, key: &str) -> (r: Option<&'a str>)
        ensures
            opt_view(r) == text_at(*self, key@),
    {
        match self.get(key) {
            Some(JsonValue::Str(s)) => Some(s.as_str()),
            _ => None,
        }
    }
}

} // verus!
