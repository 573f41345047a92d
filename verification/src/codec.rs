//! JSON text: reading it into a [`Json`] value and writing a value out.
//!
//! The text is read and written by `serde_json`. What it reads and writes is
//! not restated here: [`parsed`], [`compact_text`] and [`pretty_text`] name the
//! results, and the contracts of this module say which call yields which.

use crate::json::{Json, JsonNumber, JsonView};
use crate::utils::error::{Error, ErrorKind};
use serde_json::Value;
use vstd::prelude::*;

verus! {

#[verifier::external_type_specification]
#[verifier::external_body]
pub struct ExValue(serde_json::Value);

/// What `serde_json::from_str` makes of a text: the value it describes, or
/// nothing where the text is not one JSON value.
pub uninterp spec fn parsed(text: Seq<char>) -> Option<JsonView>;

/// The text that `serde_json::to_string` writes for a value: one line, no spaces
/// between tokens, the members of an object in the order of their names.
pub uninterp spec fn compact_text(value: JsonView) -> Seq<char>;

/// The text that `serde_json::to_string_pretty` writes for a value: one member
/// or item per line, indented by two spaces.
pub uninterp spec fn pretty_text(value: JsonView) -> Seq<char>;

/// Moves a `serde_json::Value` into a [`Json`], variant for variant. A number
/// is an integer where `as_u64` or `as_i64` reads it, and is kept as it is
/// where neither does; the members of an object come in the order in which
/// `serde_json::Map` hands them out.
#[verifier::external_body]
fn json_of(value: Value) -> Json {
    match value {
        Value::Null => Json::Null,
        Value::Bool(b) => Json::Bool(b),
        Value::Number(n) => Json::Number(match (n.as_u64(), n.as_i64()) {
            (Some(u), _) => JsonNumber::PosInt(u),
            (None, Some(i)) => JsonNumber::NegInt(i),
            (None, None) => JsonNumber::Float(n),
        }),
        Value::String(s) => Json::String(s),
        Value::Array(items) => Json::Array(items.into_iter().map(json_of).collect()),
        Value::Object(map) => Json::Object(map.into_iter().map(|(k, v)| (k, json_of(v))).collect()),
    }
}

/// Copies a [`Json`] into a `serde_json::Value`, variant for variant. The
/// members of an object go into a `serde_json::Map` by `insert`, in order, so
/// that a later member replaces an earlier one of the same name.
#[verifier::external_body]
fn value_of(value: &Json) -> Value {
    match value {
        Json::Null => Value::Null,
        Json::Bool(b) => Value::Bool(*b),
        Json::Number(JsonNumber::PosInt(u)) => Value::from(*u),
        Json::Number(JsonNumber::NegInt(i)) => Value::from(*i),
        Json::Number(JsonNumber::Float(n)) => Value::Number(n.clone()),
        Json::String(s) => Value::String(s.clone()),
        Json::Array(items) => Value::Array(items.iter().map(value_of).collect()),
        Json::Object(members) => {
            let mut map = serde_json::Map::new();
            members.iter().for_each(|(k, v)| { map.insert(k.clone(), value_of(v)); });
            Value::Object(map)
        },
    }
}

/// `serde_json::from_str`, asked for a `serde_json::Value`. The outcome depends
/// on the text alone: a value where the text is one JSON value, else the words
/// of the error that `serde_json` gave.
#[verifier::external_body]
fn read_value(text: &str) -> (r: Result<Json, String>)
    ensures
        match r {
            Ok(value) => parsed(text@) == Some(value@),
            Err(_) => parsed(text@) is None,
        },
{
    match serde_json::from_str::<Value>(text) {
        Ok(value) => Ok(json_of(value)),
        Err(e) => Err(e.to_string()),
    }
}

/// `serde_json::to_string` on a value. A value has strings for member names and
/// only finite numbers, and the text goes to memory, so it is always written.
#[verifier::external_body]
fn write_compact(value: &Json) -> (r: Result<String, String>)
    ensures
        match r {
            Ok(text) => text@ == compact_text(value@),
            Err(_) => false,
        },
{
    match serde_json::to_string(&value_of(value)) {
        Ok(text) => Ok(text),
        Err(e) => Err(e.to_string()),
    }
}

/// `serde_json::to_string_pretty` on a value; always written, as the compact
/// text is.
#[verifier::external_body]
fn write_pretty(value: &Json) -> (r: Result<String, String>)
    ensures
        match r {
            Ok(text) => text@ == pretty_text(value@),
            Err(_) => false,
        },
{
    match serde_json::to_string_pretty(&value_of(value)) {
        Ok(text) => Ok(text),
        Err(e) => Err(e.to_string()),
    }
}

/// What [`parse`] returns for a text, whatever the detail of the error.
pub open spec fn parse_outcome(text: Seq<char>, r: Result<Json, Error>) -> bool {
    match r {
        Ok(value) => parsed(text) == Some(value@),
        Err(e) => parsed(text) is None && e@.kind == ErrorKind::Json,
    }
}

/// Reads one JSON value from `text`.
pub fn parse(text: &str) -> (r: Result<Json, Error>)
    ensures
        parse_outcome(text@, r),
{
    match read_value(text) {
        Ok(value) => Ok(value),
        Err(detail) => Err(Error::Json(detail)),
    }
}

/// Writes `value` as compact JSON text.
pub fn to_string(value: &Json) -> (r: Result<String, Error>)
    ensures
        r matches Ok(text) && text@ == compact_text(value@),
{
    match write_compact(value) {
        Ok(text) => Ok(text),
        Err(detail) => Err(Error::Json(detail)),
    }
}

/// Writes `value` as indented JSON text.
pub fn to_string_pretty(value: &Json) -> (r: Result<String, Error>)
    ensures
        r matches Ok(text) && text@ == pretty_text(value@),
{
    match write_pretty(value) {
        Ok(text) => Ok(text),
        Err(detail) => Err(Error::Json(detail)),
    }
}

} // verus!
