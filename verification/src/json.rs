//! The JSON documents that arrive on the queue, read through `serde_json`.
//!
//! A `serde_json::Value` is opaque to the verifier. What it holds is named by
//! four uninterpreted functions, one per `serde_json` operation used; the
//! trusted items below tie each operation to its name and nothing else.

use vstd::prelude::*;

verus! {

/// Trusted: `serde_json::Value`, taken as a type whose inside is not seen.
#[verifier::external_type_specification]
#[verifier::external_body]
pub struct ExValue(serde_json::Value);

/// Trusted: `serde_json::Error`, taken as a type whose inside is not seen.
#[verifier::external_type_specification]
#[verifier::external_body]
pub struct ExJsonError(serde_json::Error);

/// The document that `text` denotes, `None` where `text` is not valid JSON.
pub uninterp spec fn json_document(text: Seq<char>) -> Option<serde_json::Value>;

/// The member stored under `key` in `value`, `None` where `value` is not an
/// object or has no such member.
pub uninterp spec fn json_member(value: serde_json::Value, key: Seq<char>) -> Option<
    serde_json::Value,
>;

/// The text of `value`, `None` where `value` is not a JSON string.
pub uninterp spec fn json_string(value: serde_json::Value) -> Option<Seq<char>>;

/// The number in `value`, `None` where `value` is not a number or is one that
/// does not fit an `i64`.
pub uninterp spec fn json_integer(value: serde_json::Value) -> Option<i64>;

/// Trusted: `serde_json::from_str` at type `Value`. Parsing depends on the
/// text alone, so its result has a name; which texts parse is not stated.
#[verifier::external_body]
pub(crate) fn parse_document(text: &str) -> (r: Result<serde_json::Value, serde_json::Error>)
    ensures
        r matches Ok(v) ==> json_document(text@) == Some(v),
        r is Err ==> json_document(text@) is None,
{
    serde_json::from_str::<serde_json::Value>(text)
}

/// Trusted: `serde_json::Value::get` with a string key, which looks the key
/// up when the value is an object and yields `None` otherwise.
#[verifier::external_body]
pub(crate) fn member<'a>(value: &'a serde_json::Value, key: &str) -> (r: Option<
    &'a serde_json::Value,
>)
    ensures
        r matches Some(m) ==> json_member(*value, key@) == Some(*m),
        r is None ==> json_member(*value, key@) is None,
{
    value.get(key)
}

/// Trusted: `Value::as_str` yields the text of a JSON string and `None` for
/// every other kind of value.
pub assume_specification[ serde_json::Value::as_str ](value: &serde_json::Value) -> (r: Option<
    &str,
>)
    ensures
        r matches Some(s) ==> json_string(*value) == Some(s@),
        r is None ==> json_string(*value) is None,
;

/// Trusted: `Value::as_i64` yields a number that is an integer within `i64`
/// and `None` for every other value.
pub assume_specification[ serde_json::Value::as_i64 ](value: &serde_json::Value) -> (r: Option<
    i64,
>)
    ensures
        r == json_integer(*value),
;

/// The text stored under `key`, if `value` has a string member of that name.
pub open spec fn string_at(value: serde_json::Value, key: Seq<char>) -> Option<Seq<char>> {
    match json_member(value, key) {
        Some(m) => json_string(m),
        None => None,
    }
}

/// The integer stored under `key`, if `value` has such a member.
pub open spec fn integer_at(value: serde_json::Value, key: Seq<char>) -> Option<i64> {
    match json_member(value, key) {
        Some(m) => json_integer(m),
        None => None,
    }
}

/// The view of an optional string.
pub open spec fn text_of(s: Option<String>) -> Option<Seq<char>> {
    match s {
        Some(t) => Some(t@),
        None => None,
    }
}

/// Reads the string member `key` of `value` into an owned string.
pub fn read_string(value: &serde_json::Value, key: &str) -> (r: Option<String>)
    ensures
        text_of(r) == string_at(*value, key@),
{
    match member(value, key) {
        Some(m) => match m.as_str() {
            Some(s) => Some(s.to_owned()),
            None => None,
        },
        None => None,
    }
}

/// Reads the integer member `key` of `value`.
pub fn read_integer(value: &serde_json::Value, key: &str) -> (r: Option<i64>)
    ensures
        r == integer_at(*value, key@),
{
    match member(value, key) {
        Some(m) => m.as_i64(),
        None => None,
    }
}

} // verus!
