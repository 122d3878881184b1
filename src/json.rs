//! Parsed JSON documents, read through serde_json.
use vstd::prelude::*;

verus! {

#[verifier::external_type_specification]
#[verifier::external_body]
pub struct ExJsonValue(serde_json::Value);

#[verifier::external_type_specification]
#[verifier::external_body]
pub struct ExJsonError(serde_json::Error);

/// Whether serde_json accepts `text` as one JSON document.
pub uninterp spec fn json_parses(text: Seq<char>) -> bool;

/// The string that the JSON pointer `pointer` addresses in the document
/// `text`, if it addresses a string.
pub uninterp spec fn json_str_at(text: Seq<char>, pointer: Seq<char>) -> Option<Seq<char>>;

/// A parsed JSON document, with the text it was parsed from.
pub struct JsonDoc {
    value: serde_json::Value,
    source: Ghost<Seq<char>>,
}

impl JsonDoc {
    /// The text this document was parsed from.
    pub closed spec fn source(&self) -> Seq<char> {
        self.source@
    }
}

/// Relies on `serde_json::from_str::<serde_json::Value>`: it fails exactly
/// on the texts that are not one JSON document.
#[verifier::external_body]
pub(crate) fn parse_json(text: &str) -> (r: Result<JsonDoc, serde_json::Error>)
    ensures
        r is Ok <==> json_parses(text@),
        r matches Ok(d) ==> d.source() == text@,
{
    match serde_json::from_str::<serde_json::Value>(text) {
        Ok(value) => Ok(JsonDoc { value, source: Ghost(text@) }),
        Err(e) => Err(e),
    }
}

/// Relies on `serde_json::Value::pointer`, then `Value::as_str`: the string
/// at `pointer` in the document, if the pointer addresses one.
#[verifier::external_body]
pub(crate) fn str_at(doc: &JsonDoc, pointer: &str) -> (r: Option<String>)
    ensures
        match json_str_at(doc.source(), pointer@) {
            Some(s) => r matches Some(t) && t@ == s,
            None => r is None,
        },
{
    doc.value.pointer(pointer).and_then(serde_json::Value::as_str).map(str::to_string)
}

} // verus!
