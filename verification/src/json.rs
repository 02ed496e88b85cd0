//! JSON values as a tagged tree, written and read by `serde_json`.
//!
//! The tree is what the rest of the library works on. Turning a tree into
//! text and text into a tree is `serde_json`'s work. What comes out of it is
//! named here, the two texts of a value and the value of a text, so that
//! contracts can say which text stands where without saying what `serde_json`
//! writes character by character.

use crate::error::WesterError;
use vstd::prelude::*;

verus! {

/// `serde_json::Number`, carried through as it is: nothing here looks inside.
#[verifier::external_type_specification]
#[verifier::external_body]
pub struct ExNumber(serde_json::Number);

/// `serde_json::Value`, which only the conversions below build and take apart.
#[verifier::external_type_specification]
#[verifier::external_body]
pub struct ExValue(serde_json::Value);

/// `serde_json::Error`, as the parser hands it out.
#[verifier::external_type_specification]
#[verifier::external_body]
pub struct ExError(serde_json::Error);

/// A JSON value. An object keeps its members as a list of key and value, in
/// the order given.
#[derive(Debug, PartialEq, Eq)]
pub enum JsonValue {
    Null,
    Bool(bool),
    Number(serde_json::Number),
    String(String),
    Array(Vec<JsonValue>),
    Object(Vec<(String, JsonValue)>),
}

/// The mathematical form of a [`JsonValue`].
pub enum JsonModel {
    Null,
    Bool(bool),
    Number(serde_json::Number),
    String(Seq<char>),
    Array(Seq<JsonModel>),
    Object(Seq<(Seq<char>, JsonModel)>),
}

impl View for JsonValue {
    type V = JsonModel;

    open spec fn view(&self) -> JsonModel
        decreases self,
    {
        match self {
            JsonValue::Null => JsonModel::Null,
            JsonValue::Bool(b) => JsonModel::Bool(*b),
            JsonValue::Number(n) => JsonModel::Number(*n),
            JsonValue::String(s) => JsonModel::String(s@),
            JsonValue::Array(items) => JsonModel::Array(
                Seq::new(
                    items@.len(),
                    |i: int|
                        if 0 <= i < items@.len() {
                            items@[i].view()
                        } else {
                            JsonModel::Null
                        },
                ),
            ),
            JsonValue::Object(members) => JsonModel::Object(
                Seq::new(
                    members@.len(),
                    |i: int|
                        if 0 <= i < members@.len() {
                            (members@[i].0@, members@[i].1.view())
                        } else {
                            (Seq::empty(), JsonModel::Null)
                        },
                ),
            ),
        }
    }
}

/// The model of an optional value.
pub open spec fn model_of(value: Option<JsonValue>) -> Option<JsonModel> {
    match value {
        Some(v) => Some(v@),
        None => None,
    }
}

/// The compact JSON text of a value: what `serde_json` writes for it without
/// any white space between tokens.
pub uninterp spec fn json_compact(value: JsonModel) -> Seq<char>;

/// The indented JSON text of a value: what `serde_json` writes for it in its
/// pretty form, one member or item per line, two spaces per level.
pub uninterp spec fn json_pretty(value: JsonModel) -> Seq<char>;

/// The value that `serde_json` reads from a text, or `None` where the text is
/// not one JSON value.
pub uninterp spec fn json_parsed(text: Seq<u8>) -> Option<JsonModel>;

/// Rebuilds a tree as a `serde_json::Value`, variant by variant. The members
/// of an object go into `serde_json`'s map, which holds each key once.
#[verifier::external_body]
fn to_serde(value: &JsonValue) -> serde_json::Value {
    match value {
        JsonValue::Null => serde_json::Value::Null,
        JsonValue::Bool(b) => serde_json::Value::Bool(*b),
        JsonValue::Number(n) => serde_json::Value::Number(n.clone()),
        JsonValue::String(s) => serde_json::Value::String(s.clone()),
        JsonValue::Array(items) => serde_json::Value::Array(items.iter().map(to_serde).collect()),
        JsonValue::Object(members) => serde_json::Value::Object(
            members.iter().map(|m| (m.0.clone(), to_serde(&m.1))).collect(),
        ),
    }
}

/// Takes a `serde_json::Value` apart into a tree, variant by variant. The
/// members of an object come in the order in which `serde_json`'s map hands
/// them out.
#[verifier::external_body]
fn from_serde(value: serde_json::Value) -> JsonValue {
    match value {
        serde_json::Value::Null => JsonValue::Null,
        serde_json::Value::Bool(b) => JsonValue::Bool(b),
        serde_json::Value::Number(n) => JsonValue::Number(n),
        serde_json::Value::String(s) => JsonValue::String(s),
        serde_json::Value::Array(items) => JsonValue::Array(
            items.into_iter().map(from_serde).collect(),
        ),
        serde_json::Value::Object(members) => JsonValue::Object(
            members.into_iter().map(|m| (m.0, from_serde(m.1))).collect(),
        ),
    }
}

/// `Display` of `serde_json::Value`, plain form. The contract claims that the
/// text depends on the value alone and gives it its name; it claims nothing
/// about the characters.
#[verifier::external_body]
fn compact_text(value: &JsonValue) -> (out: String)
    ensures
        out@ == json_compact(value@),
{
    format!("{}", to_serde(value))
}

/// `Display` of `serde_json::Value`, alternate form. The contract claims that
/// the text depends on the value alone and gives it its name; it claims
/// nothing about the characters.
#[verifier::external_body]
fn pretty_text(value: &JsonValue) -> (out: String)
    ensures
        out@ == json_pretty(value@),
{
    format!("{:#}", to_serde(value))
}

/// `serde_json::from_slice` at type `serde_json::Value`. The contract claims
/// that success and the value read depend on the bytes alone.
#[verifier::external_body]
fn parse_value(text: &[u8]) -> (out: Result<JsonValue, serde_json::Error>)
    ensures
        out matches Ok(value) ==> json_parsed(text@) == Some(value@),
        out is Err ==> json_parsed(text@) is None,
{
    serde_json::from_slice::<serde_json::Value>(text).map(from_serde)
}

/// `Display` of `serde_json::Error`: the parser's account of what went wrong
/// and where. Nothing is claimed of the text.
#[verifier::external_body]
fn error_text(error: &serde_json::Error) -> String {
    format!("{}", error)
}

impl JsonValue {
    /// The value as compact JSON text.
    pub fn to_compact(&self) -> (out: String)
        ensures
            out@ == json_compact(self@),
    {
        compact_text(self)
    }

    /// The value as indented JSON text.
    pub fn to_pretty(&self) -> (out: String)
        ensures
            out@ == json_pretty(self@),
    {
        pretty_text(self)
    }

    /// A JSON string with the given text.
    pub fn text(value: &str) -> (out: JsonValue)
        ensures
            out@ == JsonModel::String(value@),
    {
        JsonValue::String(value.to_owned())
    }
}

/// Reads one JSON value from a text. Where the text is not one JSON value,
/// the parser's message comes back as an error.
pub fn parse_json(text: &[u8]) -> (out: Result<JsonValue, WesterError>)
    ensures
        match json_parsed(text@) {
            Some(model) => out matches Ok(value) && value@ == model,
            None => out matches Err(WesterError::SerdeJson(_)),
        },
{
    match parse_value(text) {
        Ok(value) => Ok(value),
        Err(error) => Err(WesterError::SerdeJson(error_text(&error))),
    }
}

} // verus!
