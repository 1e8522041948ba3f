//! Hexadecimal decoding, by the `hex` crate, and the texts of its errors.

use crate::text::decimal;
use vstd::prelude::*;

verus! {

/// Why a hexadecimal string could not be decoded.
#[derive(Debug, Clone, Copy, PartialEq, Eq, Structural)]
pub enum HexError {
    /// A byte that is no hexadecimal digit, with its position.
    InvalidHexCharacter { c: char, index: usize },
    /// The string has an odd number of bytes.
    OddLength,
    /// The decoded length did not fit a fixed-size buffer.
    InvalidStringLength,
}

/// Whether `b` is one of `0-9`, `a-f`, `A-F`.
pub open spec fn is_hex_digit(b: u8) -> bool {
    (0x30 <= b <= 0x39) || (0x61 <= b <= 0x66) || (0x41 <= b <= 0x46)
}

/// The value of a hexadecimal digit.
pub open spec fn hex_digit_value(b: u8) -> int {
    if 0x30 <= b <= 0x39 {
        b - 0x30
    } else if 0x61 <= b <= 0x66 {
        b - 0x61 + 10
    } else {
        b - 0x41 + 10
    }
}

/// Decodes the digit pairs of `s`, whose first byte stands at `offset` of the
/// whole input; the first byte that is no digit is reported.
pub open spec fn hex_pairs(s: Seq<u8>, offset: nat) -> Result<Seq<u8>, HexError>
    decreases s.len(),
{
    if s.len() < 2 {
        Ok(Seq::empty())
    } else if !is_hex_digit(s[0]) {
        Err(HexError::InvalidHexCharacter { c: s[0] as char, index: offset as usize })
    } else if !is_hex_digit(s[1]) {
        Err(HexError::InvalidHexCharacter { c: s[1] as char, index: (offset + 1) as usize })
    } else {
        match hex_pairs(s.skip(2), offset + 2) {
            Ok(rest) => Ok(
                seq![(hex_digit_value(s[0]) * 16 + hex_digit_value(s[1])) as u8] + rest,
            ),
            Err(e) => Err(e),
        }
    }
}

/// What `hex::decode` gives for the bytes `s`.
pub open spec fn hex_decoding(s: Seq<u8>) -> Result<Seq<u8>, HexError> {
    if s.len() % 2 != 0 {
        Err(HexError::OddLength)
    } else {
        hex_pairs(s, 0)
    }
}

/// A byte with an ASCII lower-case letter made upper-case, as
/// `to_ascii_uppercase` does.
pub open spec fn ascii_upper(b: u8) -> u8 {
    if 0x61 <= b <= 0x7a {
        (b - 32) as u8
    } else {
        b
    }
}

/// The bytes `s` with every ASCII lower-case letter made upper-case.
pub open spec fn ascii_uppercase(s: Seq<u8>) -> Seq<u8> {
    s.map_values(|b: u8| ascii_upper(b))
}

proof fn lemma_hex_pairs_ignore_case(s: Seq<u8>, offset: nat)
    ensures
        hex_pairs(ascii_uppercase(s), offset) is Ok <==> hex_pairs(s, offset) is Ok,
        hex_pairs(s, offset) matches Ok(v) ==> hex_pairs(ascii_uppercase(s), offset) == Ok::<
            Seq<u8>,
            HexError,
        >(v),
    decreases s.len(),
{
    let u = ascii_uppercase(s);
    if s.len() >= 2 {
        assert(u[0] == ascii_upper(s[0]) && u[1] == ascii_upper(s[1]));
        assert(u.skip(2) =~= ascii_uppercase(s.skip(2)));
        lemma_hex_pairs_ignore_case(s.skip(2), offset + 2);
    }
}

/// Hexadecimal decoding does not depend on the case of the letters: the
/// bytes decode after upper-casing exactly when they decode before, and to
/// the same bytes.
pub proof fn law_hex_decoding_ignores_case(s: Seq<u8>)
    ensures
        hex_decoding(ascii_uppercase(s)) is Ok <==> hex_decoding(s) is Ok,
        hex_decoding(s) matches Ok(v) ==> hex_decoding(ascii_uppercase(s)) == Ok::<
            Seq<u8>,
            HexError,
        >(v),
{
    lemma_hex_pairs_ignore_case(s, 0);
}

/// `hex::decode` on the UTF-8 bytes of `data`. Its source rejects an odd
/// length first, then decodes the pairs from the front and reports the first
/// byte that is no digit, as a `char` made from that byte, with its position:
/// the result is `hex_decoding` of the bytes. The error is moved into
/// `HexError`, one variant for each of the crate's.
#[verifier::external_body]
pub(crate) fn hex_decode(data: &str) -> (res: Result<Vec<u8>, HexError>)
    ensures
        match res {
            Ok(v) => hex_decoding(vstd::utf8::encode_utf8(data@)) == Ok::<Seq<u8>, HexError>(v@),
            Err(e) => hex_decoding(vstd::utf8::encode_utf8(data@)) == Err::<Seq<u8>, HexError>(e),
        },
{
    match hex::decode(data) {
        Ok(v) => Ok(v),
        Err(hex::FromHexError::InvalidHexCharacter { c, index }) => Err(
            HexError::InvalidHexCharacter { c, index },
        ),
        Err(hex::FromHexError::OddLength) => Err(HexError::OddLength),
        Err(hex::FromHexError::InvalidStringLength) => Err(HexError::InvalidStringLength),
    }
}

/// How `Debug` writes a `char`: between single quotes, with escapes.
pub uninterp spec fn char_debug_text(c: char) -> Seq<char>;

/// The text of the `hex` crate's error for an invalid character `c` at `index`.
pub open spec fn invalid_hex_character_text(c: char, index: usize) -> Seq<char> {
    "Invalid character "@ + char_debug_text(c) + " at position "@ + decimal(index as nat)
}

/// The text that the `hex` crate's `Display` gives for each error.
pub open spec fn hex_error_message(e: HexError) -> Seq<char> {
    match e {
        HexError::InvalidHexCharacter { c, index } => invalid_hex_character_text(c, index),
        HexError::OddLength => "Odd number of digits"@,
        HexError::InvalidStringLength => "Invalid string length"@,
    }
}

/// `to_string` of `hex::FromHexError`. Its `Display` writes fixed texts for
/// an odd length and for a wrong string length; for an invalid character it
/// writes `Invalid character {:?} at position {}`: the character in `Debug`
/// form, left under the name `char_debug_text`, and the position in decimal.
#[verifier::external_body]
pub(crate) fn hex_error_text(e: HexError) -> (t: String)
    ensures
        t@ == match e {
            HexError::InvalidHexCharacter { c, index } => "Invalid character "@ + char_debug_text(c)
                + " at position "@ + decimal(index as nat),
            HexError::OddLength => "Odd number of digits"@,
            HexError::InvalidStringLength => "Invalid string length"@,
        },
{
    let outside = match e {
        HexError::InvalidHexCharacter { c, index } => hex::FromHexError::InvalidHexCharacter {
            c,
            index,
        },
        HexError::OddLength => hex::FromHexError::OddLength,
        HexError::InvalidStringLength => hex::FromHexError::InvalidStringLength,
    };
    outside.to_string()
}

} // verus!
