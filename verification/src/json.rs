//! The document model: a JSON value held as plain data.
//!
//! A parsed response is a tree of [`Json`] nodes.  Numbers that fit in
//! `i64` are held exactly; any other number keeps its decimal text, so
//! that no floating point runs through the verified logic.

use vstd::prelude::*;

use crate::error::{ApiError, ApiErrorV};

verus! {

/// One JSON value.
///
/// An object is a list of key/value entries; the parser yields each key
/// once, and entry order carries no meaning.
#[derive(Debug, PartialEq, Eq)]
pub enum Json {
    Null,
    Bool(bool),
    /// A number within `i64` range.
    Int(i64),
    /// Any other number, kept as its decimal text.
    Num(String),
    Str(String),
    Arr(Vec<Json>),
    Obj(Vec<(String, Json)>),
}

/// A JSON number as a mapper hands it on: exact where it fits in `i64`,
/// otherwise its decimal text.
#[derive(Debug, PartialEq, Eq, Clone)]
pub enum JsonNum {
    Int(i64),
    Dec(String),
}

/// Mathematical image of a [`JsonNum`].
pub enum JsonNumV {
    Int(i64),
    Dec(Seq<char>),
}

impl View for JsonNum {
    type V = JsonNumV;

    open spec fn view(&self) -> JsonNumV {
        match *self {
            JsonNum::Int(v) => JsonNumV::Int(v),
            JsonNum::Dec(ref s) => JsonNumV::Dec(s@),
        }
    }
}

/// First value bound to `name` among `entries`, searching from index `i`.
pub open spec fn lookup_from(entries: Seq<(String, Json)>, name: Seq<char>, i: int) -> Option<Json>
    decreases entries.len() - i,
{
    if i < 0 || i >= entries.len() {
        None
    } else if entries[i].0@ == name {
        Some(entries[i].1)
    } else {
        lookup_from(entries, name, i + 1)
    }
}

/// Value bound to `name` in the entries of an object, if any.
pub open spec fn lookup(entries: Seq<(String, Json)>, name: Seq<char>) -> Option<Json> {
    lookup_from(entries, name, 0)
}

/// The document that a piece of text denotes, or `None` where the text
/// is not valid JSON.  Parsing is a function of the text alone: the
/// parser behind [`parse_text`] resolves numbers and object keys the
/// same way on every run.
pub uninterp spec fn json_of_text(s: Seq<char>) -> Option<Json>;

/// The outside parser's generic document type, carried only between the
/// two trusted functions below.
#[verifier::external_type_specification]
#[verifier::external_body]
pub struct ExValue(serde_json::Value);

/// Relies on `serde_json::from_str::<Value>`: the parse depends on the
/// text alone, and yields `None` exactly when the text is not valid
/// JSON.
#[verifier::external_body]
fn parse_document(s: &str) -> (r: Option<Json>)
    ensures
        r == json_of_text(s@),
{
    match serde_json::from_str::<serde_json::Value>(s) {
        Ok(v) => Some(json_from_value(v)),
        Err(_) => None,
    }
}

/// Relies on the `serde_json::Value` accessors (`Number::as_i64`,
/// `Number::to_string`): rebuilds the parsed document as a [`Json`]
/// tree, variant for variant; a number within `i64` range becomes
/// `Int`, any other number keeps its decimal text.
#[verifier::external_body]
fn json_from_value(v: serde_json::Value) -> Json {
    match v {
        serde_json::Value::Null => Json::Null,
        serde_json::Value::Bool(b) => Json::Bool(b),
        serde_json::Value::Number(n) => match n.as_i64() {
            Some(i) => Json::Int(i),
            None => Json::Num(n.to_string()),
        },
        serde_json::Value::String(s) => Json::Str(s),
        serde_json::Value::Array(a) => Json::Arr(a.into_iter().map(json_from_value).collect()),
        serde_json::Value::Object(o) => Json::Obj(
            o.into_iter().map(|p| (p.0, json_from_value(p.1))).collect(),
        ),
    }
}

/// Parse a response body into a document, failing with
/// [`ApiError::Format`] where the body is not valid JSON.
pub fn parse_text(s: &str) -> (r: Result<Json, ApiError>)
    ensures
        match r {
            Ok(j) => json_of_text(s@) == Some(j),
            Err(e) => json_of_text(s@) is None && e@ == ApiErrorV::Format,
        },
{
    match parse_document(s) {
        Some(j) => Ok(j),
        None => Err(ApiError::Format),
    }
}

} // verus!
