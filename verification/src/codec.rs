//! JSON text. The encoding itself is `serde_json`'s: documents are handed to it
//! and taken from it, and what it writes and reads is believed, not proved.

use vstd::prelude::*;
use crate::json::{Json, JsonValue};

verus! {

/// `serde_json::Value`, the document tree of `serde_json`. It is only handed on.
#[verifier::external_type_specification]
#[verifier::external_body]
pub struct ExValue(serde_json::Value);

/// `serde_json::Error`, which says why a text could not be read. It is only
/// handed on.
#[verifier::external_type_specification]
#[verifier::external_body]
pub struct ExError(serde_json::Error);

/// The bytes that `serde_json::to_vec` writes for a document. Which bytes these
/// are is left to `serde_json`; the name says only that they depend on the
/// document alone.
pub uninterp spec fn json_text(doc: JsonValue) -> Seq<u8>;

/// The document that `serde_json::from_str` reads from a text, or `None` where
/// it refuses the text. Which document this is is left to `serde_json`; the name
/// says only that it depends on the text alone.
pub uninterp spec fn json_parsed(text: Seq<char>) -> Option<JsonValue>;

/// Rebuilds a document as a `serde_json::Value`, node for node. The literal of a
/// number is read by `serde_json::from_str`, and a literal that it refuses
/// becomes `null`. Nothing is claimed of the result.
#[verifier::external_body]
fn to_outside(doc: &Json) -> serde_json::Value {
    match doc {
        Json::Null => serde_json::Value::Null,
        Json::Bool(b) => serde_json::Value::Bool(*b),
        Json::Number(n) => serde_json::from_str::<serde_json::Number>(n)
            .map_or(serde_json::Value::Null, serde_json::Value::Number),
        Json::String(s) => serde_json::Value::String(s.clone()),
        Json::Array(a) => serde_json::Value::Array(a.iter().map(to_outside).collect()),
        Json::Object(m) => {
            serde_json::Value::Object(m.iter().map(|(k, v)| (k.clone(), to_outside(v))).collect())
        },
    }
}

/// Takes a `serde_json::Value` apart into a document, node for node. A number
/// becomes the literal that its `to_string` gives. Nothing is claimed of the
/// result.
#[verifier::external_body]
fn from_outside(value: serde_json::Value) -> Json {
    match value {
        serde_json::Value::Null => Json::Null,
        serde_json::Value::Bool(b) => Json::Bool(b),
        serde_json::Value::Number(n) => Json::Number(n.to_string()),
        serde_json::Value::String(s) => Json::String(s),
        serde_json::Value::Array(a) => Json::Array(a.into_iter().map(from_outside).collect()),
        serde_json::Value::Object(m) => {
            Json::Object(m.into_iter().map(|(k, v)| (k, from_outside(v))).collect())
        },
    }
}

/// Calls `serde_json::to_vec` on the value that stands for `doc`. Believed: the
/// bytes depend on the model of the document alone.
#[verifier::external_body]
fn encode(doc: &Json) -> (bytes: Vec<u8>)
    ensures
        bytes@ == json_text(doc@),
{
    serde_json::to_vec(&to_outside(doc)).unwrap_or_default()
}

/// Calls `serde_json::from_str` and takes the value it gives apart. Believed:
/// whether the text is read, and as which document, depends on the text alone.
#[verifier::external_body]
fn decode(text: &str) -> (r: Result<Json, serde_json::Error>)
    ensures
        r matches Ok(doc) ==> json_parsed(text@) == Some(doc@),
        r is Err ==> json_parsed(text@) is None,
{
    serde_json::from_str::<serde_json::Value>(text).map(from_outside)
}

/// Calls `to_string` on a `serde_json::Error`. Nothing is claimed of the text.
#[verifier::external_body]
fn error_text(error: &serde_json::Error) -> (text: String) {
    error.to_string()
}

impl Json {
    /// The JSON text of this document.
    pub fn to_bytes(&self) -> (bytes: Vec<u8>)
        ensures
            bytes@ == json_text(self@),
    {
        encode(self)
    }

    /// Reads a JSON text. Where the text is refused, the error says why.
    pub fn parse(text: &str) -> (r: Result<Json, String>)
        ensures
            r matches Ok(doc) ==> json_parsed(text@) == Some(doc@),
            r is Err ==> json_parsed(text@) is None,
    {
        match decode(text) {
            Ok(doc) => Ok(doc),
            Err(error) => Err(error_text(&error)),
        }
    }
}

} // verus!
