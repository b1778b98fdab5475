//! JSON values as the wallet backend sends them, with the accessors that
//! the message handlers use.

use vstd::prelude::*;
use crate::text::same_text;

verus! {

/// A JSON number, kept as serde_json keeps it: a non-negative integer, a
/// negative integer, or a floating-point number (whose value the library
/// never reads).
#[derive(Debug, Clone, Copy, PartialEq, Eq)]
pub enum JsonNumber {
    PosInt(u64),
    NegInt(i64),
    Float,
}

/// A JSON value. An object keeps its entries in order; lookups take the
/// first entry with the key.
#[derive(Debug, PartialEq, Eq)]
pub enum Json {
    Null,
    Bool(bool),
    Number(JsonNumber),
    Str(String),
    Array(Vec<Json>),
    Object(Vec<(String, Json)>),
}

/// The value of the first entry named `key`.
pub open spec fn entry_lookup(entries: Seq<(String, Json)>, key: Seq<char>) -> Option<Json>
    decreases entries.len(),
{
    if entries.len() == 0 {
        None
    } else if entries[0].0@ == key {
        Some(entries[0].1)
    } else {
        entry_lookup(entries.drop_first(), key)
    }
}

/// The member `key` of an object; nothing for other values.
pub open spec fn json_get(v: Json, key: Seq<char>) -> Option<Json> {
    match v {
        Json::Object(entries) => entry_lookup(entries@, key),
        _ => None,
    }
}

/// The text of a string value.
pub open spec fn json_str(v: Option<Json>) -> Option<Seq<char>> {
    match v {
        Some(Json::Str(s)) => Some(s@),
        _ => None,
    }
}

/// The value of a boolean.
pub open spec fn json_bool(v: Option<Json>) -> Option<bool> {
    match v {
        Some(Json::Bool(b)) => Some(b),
        _ => None,
    }
}

/// The value of a non-negative integer.
pub open spec fn json_u64(v: Option<Json>) -> Option<u64> {
    match v {
        Some(Json::Number(JsonNumber::PosInt(n))) => Some(n),
        _ => None,
    }
}

/// The text of member `key` when it is a string.
pub open spec fn str_field(v: Json, key: Seq<char>) -> Option<Seq<char>> {
    json_str(json_get(v, key))
}

impl Json {
    /// The member `key` of an object (`None` for other values or when absent).
    pub fn get(&self, key: &str) -> (out: Option<&Json>)
        ensures
            out matches Some(x) ==> json_get(*self, key@) == Some(*x),
            out is None ==> json_get(*self, key@) is None,
    {
        match self {
            Json::Object(entries) => {
                let n = entries.len();
                let mut i: usize = 0;
                assert(entries@.skip(0) == entries@);
                while i < n
                    invariant
                        i <= n,
                        n == entries@.len(),
                        json_get(*self, key@) == entry_lookup(entries@, key@),
                        entry_lookup(entries@, key@) == entry_lookup(entries@.skip(i as int), key@),
                    decreases n - i,
                {
                    let ghost rest = entries@.skip(i as int);
                    assert(rest[0] == entries@[i as int]);
                    let entry = &entries[i];
                    if same_text(entry.0.as_str(), key) {
                        assert(entry_lookup(rest, key@) == Some(rest[0].1));
                        assert(json_get(*self, key@) == Some(entry.1));
                        return Some(&entry.1);
                    }
                    assert(rest.drop_first() == entries@.skip(i + 1));
                    i = i + 1;
                }
                assert(entries@.skip(i as int).len() == 0);
                None
            },
            _ => None,
        }
    }

    /// The text of a string value.
    pub fn as_str(&self) -> (out: Option<&str>)
        ensures
            out matches Some(s) ==> json_str(Some(*self)) == Some(s@),
            out is None ==> json_str(Some(*self)) is None,
    {
        match self {
            Json::Str(s) => Some(s.as_str()),
            _ => None,
        }
    }

    /// The value of a boolean.
    pub fn as_bool(&self) -> (out: Option<bool>)
        ensures
            out == json_bool(Some(*self)),
    {
        match self {
            Json::Bool(b) => Some(*b),
            _ => None,
        }
    }

    /// The value of a non-negative integer.
    pub fn as_u64(&self) -> (out: Option<u64>)
        ensures
            out == json_u64(Some(*self)),
    {
        match self {
            Json::Number(JsonNumber::PosInt(n)) => Some(*n),
            _ => None,
        }
    }

    /// Whether the value is `null`.
    pub fn is_null(&self) -> (b: bool)
        ensures
            b == (*self == Json::Null),
    {
        match self {
            Json::Null => true,
            _ => false,
        }
    }
}

/// The text of member `key` of `v`, when `v` is an object and the member a
/// string.
pub fn get_str<'a>(v: &'a Json, key: &str) -> (out: Option<&'a str>)
    ensures
        out matches Some(s) ==> str_field(*v, key@) == Some(s@),
        out is None ==> str_field(*v, key@) is None,
{
    match v.get(key) {
        Some(x) => x.as_str(),
        None => None,
    }
}

} // verus!
