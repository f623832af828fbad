//! JSON documents. Parsing and string quoting are `serde_json`'s; this module
//! declares its document type, gives it a mathematical model and states what
//! the few calls that the pipeline makes return.

use vstd::prelude::*;

verus! {

/// A parsed JSON document.
#[verifier::external_type_specification]
#[verifier::external_body]
pub struct ExValue(serde_json::Value);

/// What a JSON document is, as far as the pipeline reads one.
pub enum Json {
    /// A string.
    Text(Seq<char>),
    /// An array, with its items in order.
    Array(Seq<Json>),
    /// An object, as a map from member names to member values.
    Object(Map<Seq<char>, Json>),
    /// `null`, a boolean or a number.
    Scalar,
}

/// The document that a `serde_json::Value` holds.
pub uninterp spec fn json_model(v: serde_json::Value) -> Json;

/// The documents that a run of values holds, in order.
pub open spec fn json_models(values: Seq<serde_json::Value>) -> Seq<Json> {
    Seq::new(values.len(), |i: int| json_model(values[i]))
}

/// The document that `serde_json` reads from `bytes`, or `None` where it
/// rejects them.
pub uninterp spec fn json_document(bytes: Seq<u8>) -> Option<Json>;

/// The JSON string literal that `serde_json` writes for `text`, quotes and
/// escapes included.
pub uninterp spec fn json_quoted(text: Seq<char>) -> Seq<char>;

/// `serde_json::from_slice` at type `Value`: the parsed document, or `None` on
/// any error. The result is a function of the bytes alone, named
/// [`json_document`].
#[verifier::external_body]
pub(crate) fn parse_value(data: &[u8]) -> (r: Option<serde_json::Value>)
    ensures
        match r {
            Some(v) => json_document(data@) == Some(json_model(v)),
            None => json_document(data@) is None,
        },
{
    serde_json::from_slice::<serde_json::Value>(data).ok()
}

/// `Value::as_array`: the items of an array, and `None` for every other
/// document.
#[verifier::external_body]
pub(crate) fn value_items(v: &serde_json::Value) -> (r: Option<&Vec<serde_json::Value>>)
    ensures
        match json_model(*v) {
            Json::Array(items) => r is Some && json_models(r.unwrap()@) == items,
            _ => r is None,
        },
{
    v.as_array()
}

/// `Value::get` with a string index: the member of an object under `key`, and
/// `None` where the object has no such member or the document is no object.
#[verifier::external_body]
pub(crate) fn value_member<'a>(v: &'a serde_json::Value, key: &str) -> (r: Option<
    &'a serde_json::Value,
>)
    ensures
        match json_model(*v) {
            Json::Object(members) => if members.contains_key(key@) {
                r is Some && json_model(*r.unwrap()) == members[key@]
            } else {
                r is None
            },
            _ => r is None,
        },
{
    v.get(key)
}

/// `Value::as_str`: the text of a string, and `None` for every other document.
#[verifier::external_body]
pub(crate) fn value_text<'a>(v: &'a serde_json::Value) -> (r: Option<&'a str>)
    ensures
        match json_model(*v) {
            Json::Text(text) => r is Some && r.unwrap()@ == text,
            _ => r is None,
        },
{
    v.as_str()
}

/// `serde_json::to_string` on a `str`: the JSON string literal for `text`. The
/// result is a function of the text alone, named [`json_quoted`]. Writing a
/// `str` into memory does not fail; the empty text would stand for an error.
#[verifier::external_body]
pub(crate) fn quote_text(text: &str) -> (r: String)
    ensures
        r@ == json_quoted(text@),
{
    serde_json::to_string(text).unwrap_or_default()
}

} // verus!
