//! The calls into `serde_json`.
//!
//! The types, the functions without a body and the contracts of the wrappers
//! in this file are taken on trust: the verifier reads the contracts and never
//! the bodies. A `Value` is opaque here. What the protocol needs to know of
//! one is named by a function without a body: the members of an object, the
//! characters of a string, the text of a document. Each wrapper makes one call
//! and says which of these its result is.

use vstd::prelude::*;

verus! {

/// `serde_json::Value`: one JSON document. Its inside is not visible to
/// proofs; contracts speak of it through the functions below.
#[verifier::external_type_specification]
#[verifier::external_body]
pub struct ExValue(serde_json::Value);

/// `serde_json::Error`: why a text is not JSON.
#[verifier::external_type_specification]
#[verifier::external_body]
pub struct ExError(serde_json::Error);

/// What `serde_json::from_str` makes of `text` when a `Value` is asked for.
pub uninterp spec fn json_parse(text: Seq<char>) -> Result<serde_json::Value, serde_json::Error>;

/// The members of `value` by their keys where it is a JSON object, and no
/// member at all for every other kind of value.
pub uninterp spec fn json_members(value: serde_json::Value) -> Map<Seq<char>, serde_json::Value>;

/// The characters of `value` where it is a JSON string, as `Value::as_str`
/// gives them, and `None` for every other kind of value.
pub uninterp spec fn json_string(value: serde_json::Value) -> Option<Seq<char>>;

/// The JSON string with the characters `text`, as `Value::from` makes it of a
/// string slice.
pub uninterp spec fn json_quote(text: Seq<char>) -> serde_json::Value;

/// The compact JSON text of `value`, as its `Display` impl writes it.
pub uninterp spec fn json_text(value: serde_json::Value) -> Seq<char>;

/// The message of `error`, as its `Display` impl writes it.
pub uninterp spec fn json_diagnostic(error: serde_json::Error) -> Seq<char>;

/// The member of `value` under `key`, if `value` is an object that has one.
pub open spec fn json_member(value: serde_json::Value, key: Seq<char>) -> Option<
    serde_json::Value,
> {
    if json_members(value).contains_key(key) {
        Some(json_members(value)[key])
    } else {
        None
    }
}

/// A borrowed document, if any, as the document.
pub open spec fn value_view(value: Option<&serde_json::Value>) -> Option<serde_json::Value> {
    match value {
        Some(value) => Some(*value),
        None => None,
    }
}

/// A borrowed text, if any, as a sequence of characters.
pub open spec fn text_view(text: Option<&str>) -> Option<Seq<char>> {
    match text {
        Some(text) => Some(text@),
        None => None,
    }
}

/// Calls `serde_json::from_str::<Value>`. The parser reads nothing but the
/// text and gives up beyond a fixed nesting depth, so the outcome is a
/// function of the text.
#[verifier::external_body]
pub(crate) fn parse(text: &str) -> (parsed: Result<serde_json::Value, serde_json::Error>)
    ensures
        parsed == json_parse(text@),
{
    serde_json::from_str::<serde_json::Value>(text)
}

/// Calls `Value::get` with a string index, which looks the key up among the
/// members of an object and answers `None` for any other value.
#[verifier::external_body]
pub(crate) fn member<'a>(value: &'a serde_json::Value, key: &str) -> (found: Option<
    &'a serde_json::Value,
>)
    ensures
        found is Some <==> json_members(*value).contains_key(key@),
        found matches Some(inner) ==> *inner == json_members(*value)[key@],
{
    value.get(key)
}

/// Calls `Value::as_str`, which borrows the characters of a JSON string and
/// answers `None` for any other value.
#[verifier::external_body]
pub(crate) fn string<'a>(value: &'a serde_json::Value) -> (found: Option<&'a str>)
    ensures
        text_view(found) == json_string(*value),
{
    value.as_str()
}

/// Calls `Value::from` on a string slice, which copies it into a JSON string.
#[verifier::external_body]
pub(crate) fn quote(text: &str) -> (value: serde_json::Value)
    ensures
        value == json_quote(text@),
        json_string(value) == Some(text@),
{
    serde_json::Value::from(text)
}

/// Calls `to_string` on a `Value`, which runs its `Display` impl: the compact
/// serialisation, written into a fresh `String`. Neither a `Value` nor a
/// `String` can make the serialiser fail, so the call returns.
#[verifier::external_body]
pub(crate) fn text(value: &serde_json::Value) -> (out: String)
    ensures
        out@ == json_text(*value),
{
    value.to_string()
}

/// Calls `to_string` on an `Error`, which runs its `Display` impl: the
/// parser's message, with line and column where it has them.
#[verifier::external_body]
pub(crate) fn diagnostic(error: &serde_json::Error) -> (out: String)
    ensures
        out@ == json_diagnostic(*error),
{
    error.to_string()
}

/// `Value::clone`, which `serde_json` derives: the copy is the same document.
pub assume_specification[ <serde_json::Value as Clone>::clone ](
    value: &serde_json::Value,
) -> (copy: serde_json::Value)
    ensures
        copy == *value,
;

} // verus!
