//! A mathematical model of JSON values, and the trusted boundary to
//! serde_json, which does the actual parsing.  The model lets the rest
//! of the library state exactly which shape of JSON it accepts without
//! re-implementing a JSON parser.

use vstd::prelude::*;

verus! {

/// The abstract shape of a parsed JSON value.  Numbers are opaque:
/// nothing in the history format reads one.
pub ghost enum JsonValue {
    Null,
    Bool(bool),
    Number,
    Str(Seq<char>),
    Array(Seq<JsonValue>),
    Object(Map<Seq<char>, JsonValue>),
}

#[verifier::external_type_specification]
#[verifier::external_body]
pub struct ExJsonValue(serde_json::Value);

#[verifier::external_type_specification]
#[verifier::external_body]
pub struct ExJsonError(serde_json::Error);

/// The abstract value held by a `serde_json::Value`.
pub uninterp spec fn json_view(v: serde_json::Value) -> JsonValue;

/// What parsing a text as JSON yields: `None` where the text is not a
/// single well-formed JSON value.  The result depends on the text alone.
pub uninterp spec fn parsed_json(s: Seq<char>) -> Option<JsonValue>;

/// Relies on `serde_json::from_str::<Value>`: parses the whole text as
/// one JSON value, or fails.
#[verifier::external_body]
pub fn parse_json(s: &str) -> (r: Result<serde_json::Value, serde_json::Error>)
    ensures
        match r {
            Ok(v) => parsed_json(s@) == Some(json_view(v)),
            Err(_) => parsed_json(s@) is None,
        },
{
    serde_json::from_str(s)
}

/// Relies on `serde_json::Value::as_array`: `Some` exactly on arrays,
/// handing the elements out in order.
#[verifier::external_body]
pub fn as_array(v: &serde_json::Value) -> (r: Option<Vec<serde_json::Value>>)
    ensures
        match json_view(*v) {
            JsonValue::Array(elems) => {
                &&& r matches Some(a)
                &&& a@.len() == elems.len()
                &&& forall|i: int| 0 <= i < elems.len() ==> json_view(a@[i]) == elems[i]
            },
            _ => r is None,
        },
{
    v.as_array().cloned()
}

/// Relies on `serde_json::Value::get`: looks a key up in an object,
/// `None` on a missing key or on a non-object.
#[verifier::external_body]
pub fn get_field(v: &serde_json::Value, key: &str) -> (r: Option<serde_json::Value>)
    ensures
        match json_view(*v) {
            JsonValue::Object(m) => {
                &&& m.contains_key(key@) ==> (r matches Some(f) && json_view(f) == m[key@])
                &&& !m.contains_key(key@) ==> r is None
            },
            _ => r is None,
        },
{
    v.get(key).cloned()
}

/// Relies on `serde_json::Value::as_str`: `Some` exactly on strings.
#[verifier::external_body]
pub fn as_str_owned(v: &serde_json::Value) -> (r: Option<String>)
    ensures
        match json_view(*v) {
            JsonValue::Str(s) => r matches Some(t) && t@ == s,
            _ => r is None,
        },
{
    v.as_str().map(|s| s.to_string())
}

/// Relies on `serde_json::Value::is_null`.
#[verifier::external_body]
pub fn is_null(v: &serde_json::Value) -> (r: bool)
    ensures
        r == (json_view(*v) is Null),
{
    v.is_null()
}

/// Relies on `serde_json::Error`'s `Display` impl for a readable
/// message; nothing is claimed of the text.
#[verifier::external_body]
pub fn error_message(e: &serde_json::Error) -> String {
    e.to_string()
}

} // verus!
