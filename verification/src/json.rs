//! The JSON values that task parameters, inputs and outputs are carried in.
//!
//! The library never looks inside a JSON value except through the functions
//! of this module, each of which makes one call into `serde_json`.

use serde_json::Value;
use vstd::prelude::*;

verus! {

/// `serde_json::Value`, carried through the library as an opaque value.
#[verifier::external_type_specification]
#[verifier::external_body]
pub struct ExJsonValue(Value);

/// `serde_json::Error`, carried as an opaque value.
#[verifier::external_type_specification]
#[verifier::external_body]
pub struct ExJsonError(serde_json::Error);

/// `<serde_json::Value as Clone>::clone`: `Value` derives `Clone`, so the
/// copy is the same value.
pub assume_specification[ <Value as Clone>::clone ](v: &Value) -> (r: Value)
    ensures
        r == *v,
;

/// Whether a JSON value is `null`.
pub uninterp spec fn json_is_null(v: Value) -> bool;

/// `<serde_json::Value as Default>::default`: the source returns
/// `Value::Null`, the one JSON value that is `null`.
pub assume_specification[ <Value as Default>::default ]() -> (r: Value)
    ensures
        json_is_null(r),
        forall|v: Value| #[trigger] json_is_null(v) ==> v == r,
;

/// The JSON `null` value.
pub open spec fn json_null() -> Value {
    choose|v: Value| json_is_null(v)
}

/// The JSON string value holding `s`.
pub uninterp spec fn json_of_text(s: Seq<char>) -> Value;

/// The text of a JSON value when it is a JSON string (`Value::as_str`).
pub uninterp spec fn json_text_of(v: Value) -> Option<Seq<char>>;

/// The member `key` of a JSON value when it is an object holding that key
/// (`Value::get` with a string key).
pub uninterp spec fn json_member(v: Value, key: Seq<char>) -> Option<Value>;

/// The JSON object built from `entries` (later entries win on equal keys).
pub uninterp spec fn json_object_of(entries: Seq<(Seq<char>, Value)>) -> Value;

/// The compact JSON text of a value (`serde_json::to_string`).
pub uninterp spec fn json_text(v: Value) -> Seq<char>;

/// Whether `s` parses as JSON (`serde_json::from_str::<Value>`).
pub uninterp spec fn json_parses(s: Seq<char>) -> bool;

/// The value that `s` parses to, when it parses.
pub uninterp spec fn json_parsed(s: Seq<char>) -> Value;

/// The views of object entries.
pub open spec fn entry_views(entries: Seq<(String, Value)>) -> Seq<(Seq<char>, Value)> {
    entries.map_values(|e: (String, Value)| (e.0@, e.1))
}

/// No key occurs twice among `entries`.
pub open spec fn distinct_keys(entries: Seq<(String, Value)>) -> bool {
    forall|i: int, j: int| 0 <= i < j < entries.len() ==> entries[i].0@ != entries[j].0@
}

/// `Value::from(&str)`: the source builds `Value::String`, whose `as_str`
/// gives the text back.
#[verifier::external_body]
pub(crate) fn json_string(s: &str) -> (r: Value)
    ensures
        r == json_of_text(s@),
        json_text_of(r) == Some(s@),
{
    Value::from(s)
}

/// `Value::as_str`, copied out: `Some` exactly for JSON strings.
#[verifier::external_body]
pub(crate) fn json_as_text(v: &Value) -> (r: Option<String>)
    ensures
        match r {
            Some(t) => json_text_of(*v) == Some(t@),
            None => json_text_of(*v) is None,
        },
{
    v.as_str().map(|t| t.to_string())
}

/// `Value::get` with a string key, copied out.
#[verifier::external_body]
pub(crate) fn json_get(v: &Value, key: &str) -> (r: Option<Value>)
    ensures
        r == json_member(*v, key@),
{
    v.get(key).cloned()
}

/// An object built by `Map::from_iter` and `Value::Object`: the source
/// inserts the entries in order into the map, and `get` on an object looks
/// the key up in it, so with distinct keys each key gives back its value.
#[verifier::external_body]
pub(crate) fn json_object(entries: Vec<(String, Value)>) -> (r: Value)
    ensures
        r == json_object_of(entry_views(entries@)),
        distinct_keys(entries@) ==> forall|i: int| 0 <= i < entries@.len() ==>
            json_member(r, #[trigger] entries@[i].0@) == Some(entries@[i].1),
{
    Value::Object(entries.into_iter().collect::<serde_json::Map<String, Value>>())
}

/// `serde_json::to_string` of a value. The source serializes a `Value` into
/// a byte vector with string map keys only, and has no failing path for it.
/// Object keys are written as JSON strings and string values with escapes
/// that the parser undoes, so when the text parses back (it may not: the
/// parser limits nesting depth), every member comes back under its key, and
/// a string member with its text. Numbers are not claimed to come back
/// exactly.
#[verifier::external_body]
pub(crate) fn json_to_text(v: &Value) -> (r: Result<String, serde_json::Error>)
    ensures
        r is Ok,
        r matches Ok(s) ==> s@ == json_text(*v),
        r matches Ok(s) ==> (json_parses(s@) ==> forall|k: Seq<char>| #[trigger] json_member(*v, k) matches Some(m)
            ==> (json_member(json_parsed(s@), k) matches Some(m2) && (json_text_of(m) is Some ==> json_text_of(m2)
            == json_text_of(m)))),
{
    serde_json::to_string(v)
}

/// `serde_json::from_str::<Value>`.
#[verifier::external_body]
pub(crate) fn json_from_text(s: &str) -> (r: Result<Value, serde_json::Error>)
    ensures
        r is Ok == json_parses(s@),
        r matches Ok(v) ==> v == json_parsed(s@),
{
    serde_json::from_str::<Value>(s)
}

/// The message of a `serde_json::Error`, as its `Display` renders it (what
/// went wrong and where). Nothing is stated of the text.
#[verifier::external_body]
pub(crate) fn json_error_text(e: &serde_json::Error) -> (r: String) {
    e.to_string()
}

} // verus!
