//! The bridge's only view into the worker's reply JSON, through
//! `serde_json`. Each extraction below is a pure function of the line's
//! text, so its result is given a name that the response contracts speak
//! of; the real parsing happens in the wrapped calls.

use vstd::prelude::*;

verus! {

#[verifier::external_type_specification]
#[verifier::external_body]
pub struct ExValue(serde_json::Value);

/// Whether `line` is well-formed JSON, as `serde_json::from_str` decides.
pub uninterp spec fn json_parses(line: Seq<char>) -> bool;

/// The top-level `status` field of `line`, when `line` parses and that
/// field holds a string.
pub uninterp spec fn status_of(line: Seq<char>) -> Option<Seq<char>>;

/// The top-level `error` field of `line`, when `line` parses and that
/// field holds a string.
pub uninterp spec fn error_of(line: Seq<char>) -> Option<Seq<char>>;

/// The string under `field` inside the top-level `data` object of
/// `line`, when all of that is present.
pub uninterp spec fn data_field_of(line: Seq<char>, field: Seq<char>) -> Option<Seq<char>>;

/// Relies on `serde_json::from_str::<Value>`, `Value::get` and
/// `Value::as_str`: the `status` string at the top level of the line,
/// `None` when the line does not parse, has no `status` member, or holds
/// one that is not a string. Parsing is a pure function of the text, so
/// a `Some` result also witnesses that the line parses.
#[verifier::external_body]
pub fn response_status(line: &str) -> (r: Option<String>)
    ensures
        r.deep_view() == status_of(line@),
        r is Some ==> json_parses(line@),
{
    match serde_json::from_str::<serde_json::Value>(line) {
        Ok(v) => v.get("status").and_then(|s| s.as_str()).map(|s| s.to_string()),
        Err(_) => None,
    }
}

/// Relies on `serde_json::from_str::<Value>`, `Value::get` and
/// `Value::as_str`: the `error` string at the top level of the line,
/// `None` when absent or not a string.
#[verifier::external_body]
pub fn response_error(line: &str) -> (r: Option<String>)
    ensures
        r.deep_view() == error_of(line@),
{
    match serde_json::from_str::<serde_json::Value>(line) {
        Ok(v) => v.get("error").and_then(|s| s.as_str()).map(|s| s.to_string()),
        Err(_) => None,
    }
}

/// Relies on `serde_json::from_str::<Value>`, `Value::get` and
/// `Value::as_str`: the string under `field` inside the top-level
/// `data` object, `None` when any link of that chain is missing.
#[verifier::external_body]
pub fn response_data_field(line: &str, field: &str) -> (r: Option<String>)
    ensures
        r.deep_view() == data_field_of(line@, field@),
{
    match serde_json::from_str::<serde_json::Value>(line) {
        Ok(v) => v.get("data").and_then(|d| d.get(field)).and_then(|s| s.as_str()).map(
            |s| s.to_string(),
        ),
        Err(_) => None,
    }
}

/// Relies on `serde_json::from_str::<Value>`: the parsed value of the
/// line, `None` exactly when the line is not well-formed JSON.
#[verifier::external_body]
pub fn parse_value(line: &str) -> (r: Option<serde_json::Value>)
    ensures
        r is Some <==> json_parses(line@),
{
    serde_json::from_str::<serde_json::Value>(line).ok()
}

/// Relies on `serde_json::Value::get` and `Value::clone`: the value's
/// `data` member when it has one, otherwise the value itself. The result
/// is handed through opaquely; nothing further is assumed of it.
#[verifier::external_body]
pub fn data_or_whole(v: &serde_json::Value) -> (r: serde_json::Value)
{
    match v.get("data") {
        Some(d) => d.clone(),
        None => v.clone(),
    }
}

} // verus!
