//! What serde_json reads out of a JSON document given as bytes. Each result
//! depends on the bytes alone, so it is named here, and the wrappers below
//! make the serde_json calls.

use vstd::prelude::*;

verus! {

/// Whether the bytes are one JSON document.
pub uninterp spec fn json_parses(b: Seq<u8>) -> bool;

/// Whether the bytes are the JSON document `null`.
pub uninterp spec fn json_is_null(b: Seq<u8>) -> bool;

/// The string found at the JSON pointer `pointer` in the document `b`; `None`
/// when `b` is not JSON, nothing is there, or what is there is not a string.
pub uninterp spec fn json_str_at(b: Seq<u8>, pointer: Seq<char>) -> Option<Seq<char>>;

/// The integer found at the JSON pointer `pointer` in the document `b`; `None`
/// when `b` is not JSON, nothing is there, or it is not an integer that fits
/// in 64 signed bits.
pub uninterp spec fn json_i64_at(b: Seq<u8>, pointer: Seq<char>) -> Option<i64>;

/// Relies on serde_json's `from_slice` into a `Value`: whether it succeeds.
#[verifier::external_body]
pub(crate) fn parses_as_json(b: &[u8]) -> (r: bool)
    ensures
        r == json_parses(b@),
{
    serde_json::from_slice::<serde_json::Value>(b).is_ok()
}

/// Relies on serde_json's `from_slice` into a `Value` and `Value::is_null`.
#[verifier::external_body]
pub(crate) fn is_json_null(b: &[u8]) -> (r: bool)
    ensures
        r == json_is_null(b@),
{
    match serde_json::from_slice::<serde_json::Value>(b) {
        Ok(v) => v.is_null(),
        Err(_) => false,
    }
}

/// Relies on serde_json's `from_slice` into a `Value`, `Value::pointer` and
/// `Value::as_str`.
#[verifier::external_body]
pub(crate) fn str_at(b: &[u8], pointer: &str) -> (r: Option<String>)
    ensures
        match r {
            Some(s) => json_str_at(b@, pointer@) == Some(s@),
            None => json_str_at(b@, pointer@) is None,
        },
{
    match serde_json::from_slice::<serde_json::Value>(b) {
        Ok(v) => Some(v.pointer(pointer)?.as_str()?.to_string()),
        Err(_) => None,
    }
}

/// Relies on serde_json's `from_slice` into a `Value`, `Value::pointer` and
/// `Value::as_i64`.
#[verifier::external_body]
pub(crate) fn i64_at(b: &[u8], pointer: &str) -> (r: Option<i64>)
    ensures
        r == json_i64_at(b@, pointer@),
{
    match serde_json::from_slice::<serde_json::Value>(b) {
        Ok(v) => v.pointer(pointer)?.as_i64(),
        Err(_) => None,
    }
}

/// The text of an optional string, as an optional sequence of characters.
pub open spec fn opt_text(v: Option<String>) -> Option<Seq<char>> {
    match v {
        Some(s) => Some(s@),
        None => None,
    }
}

} // verus!
