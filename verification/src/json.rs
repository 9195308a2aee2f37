//! Reading the flat members of a JSON document through `serde_json`.
//!
//! The document itself stays opaque; what the library reads from it are the
//! boolean and the string members of its top-level object.

use vstd::prelude::*;

verus! {

/// `serde_json::Value`: a JSON document, of which Verus sees nothing but
/// what the names below say.
#[verifier::external_type_specification]
#[verifier::external_body]
pub struct ExJsonValue(serde_json::Value);

/// The document that `serde_json::from_str` reads from a text, `None` where
/// the text is not one JSON value.
pub uninterp spec fn json_document(text: Seq<char>) -> Option<serde_json::Value>;

/// The members of a document's top-level object whose value is a boolean.
/// Empty where the document is no object.
pub uninterp spec fn json_bools(doc: serde_json::Value) -> Map<Seq<char>, bool>;

/// The members of a document's top-level object whose value is a string.
/// Empty where the document is no object.
pub uninterp spec fn json_strings(doc: serde_json::Value) -> Map<Seq<char>, Seq<char>>;

/// `serde_json::from_str` at the type `serde_json::Value`, its error dropped.
/// The contract only names the result: the same text reads as the same
/// document.
#[verifier::external_body]
pub(crate) fn parse_document(text: &str) -> (r: Option<serde_json::Value>)
    ensures
        r == json_document(text@),
{
    serde_json::from_str::<serde_json::Value>(text).ok()
}

/// `Value::get` with a string key, then `Value::as_bool`: the member under
/// `key` if the document is an object that has it and it is a boolean.
#[verifier::external_body]
pub(crate) fn bool_member(doc: &serde_json::Value, key: &str) -> (r: Option<bool>)
    ensures
        r == (if json_bools(*doc).contains_key(key@) {
            Some(json_bools(*doc)[key@])
        } else {
            None
        }),
{
    doc.get(key).and_then(|v| v.as_bool())
}

/// `Value::get` with a string key, then `Value::as_str`: a copy of the member
/// under `key` if the document is an object that has it and it is a string.
#[verifier::external_body]
pub(crate) fn text_member(doc: &serde_json::Value, key: &str) -> (r: Option<String>)
    ensures
        r is Some <==> json_strings(*doc).contains_key(key@),
        r matches Some(s) ==> s@ == json_strings(*doc)[key@],
{
    doc.get(key).and_then(|v| v.as_str()).map(|s| s.to_string())
}

} // verus!
