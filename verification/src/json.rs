//! JSON values as plain data, the parser that produces them, and the
//! lookups that the rest of the library makes in them.
//!
//! Parsing is done by `serde_json`; its result is carried over into
//! [`JsonValue`], which keeps what the library reads: members by name,
//! strings, booleans, and integers as `serde_json::Number` classifies them.

use vstd::prelude::*;
use vstd::string::*;
use crate::text::{chars_of, opt_text};

verus! {

broadcast use vstd::string::group_string_axioms;

/// A JSON number, by the class that `serde_json::Number` gives it.
#[derive(Debug, Clone, Copy)]
pub enum JsonNumber {
    /// A non-negative integer that fits in `u64`.
    PosInt(u64),
    /// A negative integer that fits in `i64`.
    NegInt(i64),
    /// Any other number (written with a fraction or an exponent, or too large).
    Float,
}

/// One member `"key": value` of a JSON object.
#[derive(Debug)]
pub struct JsonMember {
    pub key: String,
    pub value: JsonValue,
}

/// A parsed JSON document.
#[derive(Debug)]
pub enum JsonValue {
    Null,
    Bool(bool),
    Number(JsonNumber),
    Str(String),
    Array(Vec<JsonValue>),
    /// The members of an object; a JSON object maps each key to one value.
    Object(Vec<JsonMember>),
}

#[verifier::external_type_specification]
#[verifier::external_body]
pub struct ExSerdeJsonValue(serde_json::Value);

/// The value that `serde_json` parses `text` into, or `None` when it
/// rejects the text.
pub uninterp spec fn parsed_json(text: Seq<char>) -> Option<JsonValue>;

/// Carries a `serde_json::Value` over into a [`JsonValue`], member for
/// member and element for element, in the order in which the value holds
/// them. Nothing is stated of it: it only serves [`parse_json`].
#[verifier::external_body]
fn json_from_serde(v: serde_json::Value) -> JsonValue {
    match v {
        serde_json::Value::Null => JsonValue::Null,
        serde_json::Value::Bool(b) => JsonValue::Bool(b),
        serde_json::Value::Number(n) => JsonValue::Number(match (n.as_u64(), n.as_i64()) {
            (Some(u), _) => JsonNumber::PosInt(u),
            (None, Some(i)) => JsonNumber::NegInt(i),
            (None, None) => JsonNumber::Float,
        }),
        serde_json::Value::String(s) => JsonValue::Str(s),
        serde_json::Value::Array(a) => JsonValue::Array(a.into_iter().map(json_from_serde).collect()),
        serde_json::Value::Object(m) => JsonValue::Object(
            m.into_iter().map(|(key, value)| JsonMember { key, value: json_from_serde(value) }).collect(),
        ),
    }
}

/// Parses `text` as one JSON document with `serde_json::from_str` into a
/// `serde_json::Value`. The result is named by [`parsed_json`]: the JSON
/// grammar itself is left to `serde_json`.
#[verifier::external_body]
pub(crate) fn parse_json(text: &str) -> (r: Option<JsonValue>)
    ensures
        r == parsed_json(text@),
{
    match serde_json::from_str::<serde_json::Value>(text) {
        Ok(v) => Some(json_from_serde(v)),
        Err(_) => None,
    }
}

/// The value of the first member of `members` whose key is `key`.
pub open spec fn lookup(members: Seq<JsonMember>, key: Seq<char>) -> Option<JsonValue>
    decreases members.len(),
{
    if members.len() == 0 {
        None
    } else if members[0].key@ == key {
        Some(members[0].value)
    } else {
        lookup(members.drop_first(), key)
    }
}

/// `value.get(key)` of `serde_json`: the member `key` of an object; nothing
/// for any other kind of value.
pub open spec fn json_get(v: JsonValue, key: Seq<char>) -> Option<JsonValue> {
    match v {
        JsonValue::Object(members) => lookup(members@, key),
        _ => None,
    }
}

/// `value.as_str()` of `serde_json`: the text of a string value.
pub open spec fn json_str(v: JsonValue) -> Option<Seq<char>> {
    match v {
        JsonValue::Str(s) => Some(s@),
        _ => None,
    }
}

/// `value.get(key).and_then(as_str)`.
pub open spec fn json_get_str(v: JsonValue, key: Seq<char>) -> Option<Seq<char>> {
    match json_get(v, key) {
        Some(m) => json_str(m),
        None => None,
    }
}

/// Whether two texts are equal.
pub fn text_eq(a: &str, b: &str) -> (r: bool)
    ensures
        r == (a@ == b@),
{
    let x = chars_of(a);
    let y = chars_of(b);
    if x.len() != y.len() {
        return false;
    }
    let n = x.len();
    for i in 0..n
        invariant
            n == x@.len(),
            n == y@.len(),
            x@ == a@,
            y@ == b@,
            forall|j: int| 0 <= j < i ==> x@[j] == y@[j],
    {
        if x[i] != y[i] {
            assert(x@[i as int] != y@[i as int]);
            return false;
        }
    }
    assert(x@ =~= y@);
    true
}

impl JsonValue {
    /// The position of the first member named `key`, for an object.
    pub fn member_index(&self, key: &str) -> (r: Option<usize>)
        ensures
            match r {
                Some(i) => self matches JsonValue::Object(ms) && i < ms@.len() && json_get(*self, key@)
                    == Some(ms@[i as int].value),
                None => json_get(*self, key@) is None,
            },
    {
        match self {
            JsonValue::Object(ms) => {
                let n = ms.len();
                let mut i: usize = 0;
                assert(ms@.skip(0) =~= ms@);
                while i < n
                    invariant
                        n == ms@.len(),
                        *self == JsonValue::Object(*ms),
                        0 <= i <= n,
                        lookup(ms@, key@) == lookup(ms@.skip(i as int), key@),
                    decreases n - i,
                {
                    assert(ms@.skip(i as int)[0] == ms@[i as int]);
                    if text_eq(ms[i].key.as_str(), key) {
                        assert(ms@.skip(i as int).len() > 0);
                        assert(lookup(ms@.skip(i as int), key@) == Some(ms@[i as int].value));
                        return Some(i);
                    }
                    assert(ms@.skip(i as int).drop_first() =~= ms@.skip(i + 1));
                    i = i + 1;
                }
                None
            },
            _ => None,
        }
    }

    /// The member named `key`, for an object.
    pub fn get(&self, key: &str) -> (r: Option<&JsonValue>)
        ensures
            match r {
                Some(v) => json_get(*self, key@) == Some(*v),
                None => json_get(*self, key@) is None,
            },
    {
        match self.member_index(key) {
            Some(i) => match self {
                JsonValue::Object(ms) => Some(&ms[i].value),
                _ => None,
            },
            None => None,
        }
    }

    /// The text of the string member `key`, as an owned string
    /// (`get(key).and_then(as_str).map(String::from)`).
    pub fn get_text(&self, key: &str) -> (r: Option<String>)
        ensures
            opt_text(r) == json_get_str(*self, key@),
    {
        match self.get(key) {
            Some(m) => match m.as_str() {
                Some(s) => Some(s.to_string()),
                None => None,
            },
            None => None,
        }
    }

    /// The text of a string value.
    pub fn as_str(&self) -> (r: Option<&str>)
        ensures
            match r {
                Some(s) => json_str(*self) == Some(s@),
                None => json_str(*self) is None,
            },
    {
        match self {
            JsonValue::Str(s) => Some(s.as_str()),
            _ => None,
        }
    }
}

} // verus!
