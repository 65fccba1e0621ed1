//! Reading JSON documents through `serde_json`.

use vstd::prelude::*;

verus! {

/// A JSON document.
#[verifier::external_type_specification]
#[verifier::external_body]
pub struct ExJsonValue(serde_json::Value);

/// The document that a text holds, if it is JSON.
pub uninterp spec fn json_document(text: Seq<char>) -> Option<serde_json::Value>;

/// The strings of a document, by the JSON pointer that addresses each.
pub uninterp spec fn json_texts(document: serde_json::Value) -> Map<Seq<char>, Seq<char>>;

/// The numbers of a document that are unsigned 64-bit integers, by the JSON
/// pointer that addresses each.
pub uninterp spec fn json_unsigned(document: serde_json::Value) -> Map<Seq<char>, u64>;

/// The numbers of a document that are signed 64-bit integers, by the JSON
/// pointer that addresses each.
pub uninterp spec fn json_signed(document: serde_json::Value) -> Map<Seq<char>, i64>;

/// The JSON pointers that address something in a document.
pub uninterp spec fn json_places(document: serde_json::Value) -> Set<Seq<char>>;

/// Calls `serde_json::from_str`: the document in `text`, or `None` where that
/// reports an error. One text always gives one document.
#[verifier::external_body]
pub(crate) fn parse_json(text: &str) -> (r: Option<serde_json::Value>)
    ensures
        r == json_document(text@),
{
    serde_json::from_str(text).ok()
}

/// Calls `serde_json::Value::pointer`, then `as_str`: the string that `pointer`
/// addresses, or `None` where it addresses nothing or something else.
#[verifier::external_body]
pub(crate) fn text_at(document: &serde_json::Value, pointer: &str) -> (r: Option<String>)
    ensures
        match r {
            Some(text) => json_texts(*document).contains_key(pointer@) && json_texts(
                *document,
            )[pointer@] == text@,
            None => !json_texts(*document).contains_key(pointer@),
        },
{
    document.pointer(pointer).and_then(serde_json::Value::as_str).map(str::to_owned)
}

/// Calls `serde_json::Value::pointer`, then `as_u64`: the number that `pointer`
/// addresses, or `None` where it addresses nothing, no number, or one that is
/// no unsigned 64-bit integer.
#[verifier::external_body]
pub(crate) fn unsigned_at(document: &serde_json::Value, pointer: &str) -> (r: Option<u64>)
    ensures
        match r {
            Some(number) => json_unsigned(*document).contains_key(pointer@) && json_unsigned(
                *document,
            )[pointer@] == number,
            None => !json_unsigned(*document).contains_key(pointer@),
        },
{
    document.pointer(pointer).and_then(serde_json::Value::as_u64)
}

/// Calls `serde_json::Value::pointer`, then `as_i64`: the number that `pointer`
/// addresses, or `None` where it addresses nothing, no number, or one that is
/// no signed 64-bit integer.
#[verifier::external_body]
pub(crate) fn signed_at(document: &serde_json::Value, pointer: &str) -> (r: Option<i64>)
    ensures
        match r {
            Some(number) => json_signed(*document).contains_key(pointer@) && json_signed(
                *document,
            )[pointer@] == number,
            None => !json_signed(*document).contains_key(pointer@),
        },
{
    document.pointer(pointer).and_then(serde_json::Value::as_i64)
}

/// Calls `serde_json::Value::pointer`: whether `pointer` addresses anything.
#[verifier::external_body]
pub(crate) fn holds_place(document: &serde_json::Value, pointer: &str) -> (r: bool)
    ensures
        r == json_places(*document).contains(pointer@),
{
    document.pointer(pointer).is_some()
}

/// The string at a place, if there is one.
pub open spec fn opt_text(document: serde_json::Value, pointer: Seq<char>) -> Option<Seq<char>> {
    if json_texts(document).contains_key(pointer) {
        Some(json_texts(document)[pointer])
    } else {
        None
    }
}

/// The unsigned number at a place, if there is one.
pub open spec fn opt_unsigned(document: serde_json::Value, pointer: Seq<char>) -> Option<u64> {
    if json_unsigned(document).contains_key(pointer) {
        Some(json_unsigned(document)[pointer])
    } else {
        None
    }
}

/// The signed number at a place, if there is one.
pub open spec fn opt_signed(document: serde_json::Value, pointer: Seq<char>) -> Option<i64> {
    if json_signed(document).contains_key(pointer) {
        Some(json_signed(document)[pointer])
    } else {
        None
    }
}

} // verus!
