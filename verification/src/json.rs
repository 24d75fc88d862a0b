//! JSON documents, as `serde_json` reads and writes them.
//!
//! The parser and the value tree are `serde_json`'s. This module gives the
//! tree a mathematical model, [`JsonValue`], and states over that model what
//! the few `serde_json` functions that the crate calls return. Those
//! statements are believed, not proved.

use vstd::prelude::*;

verus! {

/// `serde_json::Value`, a parsed JSON document. Verified code carries such a
/// value and reads it through the functions of this module only.
#[verifier::external_type_specification]
#[verifier::external_body]
pub struct ExValue(serde_json::Value);

/// `serde_json::Error`, the parser's complaint about a text that is no JSON.
#[verifier::external_type_specification]
#[verifier::external_body]
pub struct ExError(serde_json::Error);

/// A JSON document as contracts see it. Numbers are not told apart: no rule
/// of this crate reads one.
pub enum JsonValue {
    Null,
    Bool(bool),
    Number,
    Text(Seq<char>),
    Array(Seq<JsonValue>),
    Object(Map<Seq<char>, JsonValue>),
}

impl JsonValue {
    /// The member named `key`, where this is an object that has one.
    pub open spec fn member(self, key: Seq<char>) -> Option<JsonValue> {
        match self {
            JsonValue::Object(members) => if members.contains_key(key) {
                Some(members[key])
            } else {
                None
            },
            _ => None,
        }
    }

    /// The element at `index`, where this is an array that reaches so far.
    pub open spec fn element(self, index: int) -> Option<JsonValue> {
        match self {
            JsonValue::Array(elements) => if 0 <= index < elements.len() {
                Some(elements[index])
            } else {
                None
            },
            _ => None,
        }
    }

    /// The characters, where this is a string.
    pub open spec fn text(self) -> Option<Seq<char>> {
        match self {
            JsonValue::Text(characters) => Some(characters),
            _ => None,
        }
    }
}

/// The document that a `serde_json::Value` holds.
pub uninterp spec fn document(value: serde_json::Value) -> JsonValue;

/// What `serde_json::from_str` makes of a text: the document it describes, or
/// nothing where the text is not one JSON document.
pub uninterp spec fn parsed(text: Seq<char>) -> Option<JsonValue>;

/// The JSON string literal for a text: the text between double quotes, with
/// the escapes that `serde_json` writes.
pub uninterp spec fn quoted(text: Seq<char>) -> Seq<char>;

/// Calls `serde_json::from_str` for a `Value`. Believed: the outcome depends
/// on the text alone, and the document of a returned value is the one that
/// `parsed` names for the text.
#[verifier::external_body]
pub(crate) fn parse(text: &str) -> (outcome: Result<serde_json::Value, serde_json::Error>)
    ensures
        outcome matches Ok(value) ==> parsed(text@) == Some(document(value)),
        outcome is Err ==> parsed(text@) is None,
{
    serde_json::from_str::<serde_json::Value>(text)
}

/// Calls `Value::get` with a string index. Believed: it hands out the member
/// of that name where the value is an object that has one, and nothing
/// otherwise.
#[verifier::external_body]
pub(crate) fn member<'a>(value: &'a serde_json::Value, key: &str) -> (found: Option<
    &'a serde_json::Value,
>)
    ensures
        found matches Some(inner) ==> document(*value).member(key@) == Some(document(*inner)),
        found is None ==> document(*value).member(key@) is None,
{
    value.get(key)
}

/// Calls `Value::get` with a number index. Believed: it hands out the element
/// at that place where the value is an array that reaches so far, and nothing
/// otherwise.
#[verifier::external_body]
pub(crate) fn element<'a>(value: &'a serde_json::Value, index: usize) -> (found: Option<
    &'a serde_json::Value,
>)
    ensures
        found matches Some(inner) ==> document(*value).element(index as int) == Some(
            document(*inner),
        ),
        found is None ==> document(*value).element(index as int) is None,
{
    value.get(index)
}

/// Calls `Value::as_str`. Believed: it hands out the characters where the
/// value is a string, and nothing otherwise.
#[verifier::external_body]
pub(crate) fn text<'a>(value: &'a serde_json::Value) -> (found: Option<&'a str>)
    ensures
        found matches Some(characters) ==> document(*value).text() == Some(characters@),
        found is None ==> document(*value).text() is None,
{
    value.as_str()
}

/// Writes a text as a JSON string literal, through `Display` of
/// `serde_json::Value::String`. Believed: the outcome depends on the text
/// alone; `quoted` names it.
#[verifier::external_body]
pub(crate) fn quote(text: &str) -> (literal: String)
    ensures
        literal@ == quoted(text@),
{
    serde_json::Value::String(text.to_owned()).to_string()
}

} // verus!
