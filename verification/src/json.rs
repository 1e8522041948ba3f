//! The JSON values and errors of `serde_json` that pass through the library,
//! and the calls into `serde_json` that the library makes.

use vstd::prelude::*;

verus! {

/// A JSON document held by the library without being inspected.
#[verifier::external_type_specification]
#[verifier::external_body]
pub struct ExJsonValue(serde_json::Value);

/// The error that `serde_json` reports when it cannot read or write a document.
#[verifier::external_type_specification]
#[verifier::external_body]
pub struct ExJsonError(serde_json::Error);

/// A lower-case hexadecimal digit.
pub open spec fn lower_hex_digit(d: int) -> char {
    if d < 10 {
        (0x30 + d) as char
    } else {
        (0x61 + d - 10) as char
    }
}

/// How a JSON string writes the character `c`: the quote and the backslash
/// behind a backslash, five control characters by their short escapes, the
/// other control characters as `\u00XX`, and every other character as itself.
pub open spec fn json_escaped_char(c: char) -> Seq<char> {
    if c == '"' {
        seq!['\\', '"']
    } else if c == '\\' {
        seq!['\\', '\\']
    } else if c == '\x08' {
        seq!['\\', 'b']
    } else if c == '\t' {
        seq!['\\', 't']
    } else if c == '\n' {
        seq!['\\', 'n']
    } else if c == '\x0c' {
        seq!['\\', 'f']
    } else if c == '\r' {
        seq!['\\', 'r']
    } else if (c as int) < 0x20 {
        seq!['\\', 'u', '0', '0', lower_hex_digit(c as int / 16), lower_hex_digit(c as int % 16)]
    } else {
        seq![c]
    }
}

/// The escaped characters of `s`, in order.
pub open spec fn json_escaped(s: Seq<char>) -> Seq<char>
    decreases s.len(),
{
    if s.len() == 0 {
        Seq::empty()
    } else {
        json_escaped_char(s[0]) + json_escaped(s.drop_first())
    }
}

/// The JSON string literal for `s`, quotes included.
pub open spec fn json_string_literal(s: Seq<char>) -> Seq<char> {
    seq!['"'] + json_escaped(s) + seq!['"']
}

/// `serde_json::to_string` of a `str`. Its source writes the string between
/// quotes through the escape table shown by `json_escaped_char`, into a `Vec`
/// that never fails to take bytes, so the call always succeeds.
#[verifier::external_body]
pub(crate) fn json_quote(s: &str) -> (res: Result<String, serde_json::Error>)
    ensures
        res is Ok,
        res matches Ok(t) ==> t@ == json_string_literal(s@),
{
    serde_json::to_string(s)
}

/// Whether `serde_json::from_slice` reads these bytes as a JSON document.
pub uninterp spec fn json_document_accepted(bytes: Seq<u8>) -> bool;

/// The compact text that `serde_json::to_string` writes for the document
/// that `serde_json::from_slice` reads from these bytes.
pub uninterp spec fn json_reserialized(bytes: Seq<u8>) -> Seq<char>;

/// `serde_json::from_slice` into a `serde_json::Value`, then
/// `serde_json::to_string` of that value. Reading succeeds or fails by the
/// bytes alone (`json_document_accepted`); writing a `Value` cannot fail,
/// since its maps have string keys and the text goes into a `Vec`; the text
/// is a function of the bytes, named `json_reserialized`.
#[verifier::external_body]
pub(crate) fn reserialize_json(bytes: &[u8]) -> (res: Result<String, serde_json::Error>)
    ensures
        res is Ok <==> json_document_accepted(bytes@),
        res matches Ok(t) ==> t@ == json_reserialized(bytes@),
{
    match serde_json::from_slice::<serde_json::Value>(bytes) {
        Ok(v) => serde_json::to_string(&v),
        Err(e) => Err(e),
    }
}

} // verus!
