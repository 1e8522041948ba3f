//! Text that the library builds with the standard library's formatting and
//! UTF-8 routines.

use vstd::prelude::*;
use vstd::string::StringExecFns;

verus! {

/// The character of a decimal digit.
pub open spec fn digit_char(d: nat) -> char {
    ('0' as int + d) as char
}

/// The decimal notation of `n`, as `Display` writes an unsigned integer.
pub open spec fn decimal(n: nat) -> Seq<char>
    decreases n,
{
    if n < 10 {
        seq![digit_char(n)]
    } else {
        decimal(n / 10).push(digit_char(n % 10))
    }
}

/// The text that reports a byte string of `got` bytes where `expected` were due.
pub open spec fn length_mismatch_message(expected: nat, got: nat) -> Seq<char> {
    "Expected "@ + decimal(expected) + " bytes, got "@ + decimal(got)
}

/// `usize::to_string`: std's `Display` for an unsigned integer writes its
/// decimal digits, most significant first, with no sign or padding.
#[verifier::external_body]
pub(crate) fn decimal_text(n: usize) -> (t: String)
    ensures
        t@ == decimal(n as nat),
{
    n.to_string()
}

/// The text that reports `got` bytes where `expected` were due.
pub(crate) fn length_mismatch_text(expected: usize, got: usize) -> (t: String)
    ensures
        t@ == length_mismatch_message(expected as nat, got as nat),
{
    let e = decimal_text(expected);
    let g = decimal_text(got);
    "Expected ".to_string().concat(e.as_str()).concat(" bytes, got ").concat(g.as_str())
}

/// What `String::from_utf8_lossy` makes of a byte string.
pub uninterp spec fn utf8_lossy_text(bytes: Seq<u8>) -> Seq<char>;

/// `String::from_utf8_lossy`, taken as an owned `String`. Its documentation
/// says that valid UTF-8 comes back unchanged; on other input, each invalid
/// sequence becomes U+FFFD, which the contract leaves under the name
/// `utf8_lossy_text`.
#[verifier::external_body]
pub(crate) fn utf8_lossy(bytes: &[u8]) -> (s: String)
    ensures
        s@ == utf8_lossy_text(bytes@),
        vstd::utf8::valid_utf8(bytes@) ==> s@ == vstd::utf8::decode_utf8(bytes@),
{
    String::from_utf8_lossy(bytes).into_owned()
}

} // verus!
