//! Hexadecimal payloads, as the node sends them: any number of `0x` prefixes,
//! then two digits for each byte.
//!
//! The digits are decoded and written by the `hex` crate.

use crate::error::outcome;
use vstd::prelude::*;
use vstd::slice::slice_subrange;
use vstd::string::*;
use vstd::utf8::encode_utf8;

verus! {

/// The value of a hexadecimal digit, in either case.
pub open spec fn hex_value(digit: u8) -> Option<u8> {
    if 0x30 <= digit <= 0x39 {
        Some((digit - 0x30) as u8)
    } else if 0x41 <= digit <= 0x46 {
        Some((digit - 0x41 + 10) as u8)
    } else if 0x61 <= digit <= 0x66 {
        Some((digit - 0x61 + 10) as u8)
    } else {
        None
    }
}

/// Whether `digits` is an even number of hexadecimal digits.
pub open spec fn is_hex(digits: Seq<u8>) -> bool {
    &&& digits.len() % 2 == 0
    &&& forall|i: int| 0 <= i < digits.len() ==> hex_value(#[trigger] digits[i]) is Some
}

/// The bytes that hexadecimal digits stand for, two digits to a byte, the
/// high half first.
pub open spec fn hex_decoded(digits: Seq<u8>) -> Seq<u8> {
    Seq::new(
        digits.len() / 2,
        |i: int| (hex_value(digits[2 * i]).unwrap() * 16 + hex_value(digits[2 * i + 1]).unwrap()) as u8,
    )
}

/// The lower-case digit of a value below 16.
pub open spec fn hex_digit(value: u8) -> char {
    if value < 10 {
        ((0x30 + value) as u8) as char
    } else {
        ((0x61 + value - 10) as u8) as char
    }
}

/// The lower-case hexadecimal text of `bytes`, two digits to a byte, the
/// high half first.
pub open spec fn hex_encoded(bytes: Seq<u8>) -> Seq<char> {
    Seq::new(
        2 * bytes.len(),
        |i: int| if i % 2 == 0 { hex_digit(bytes[i / 2] / 16) } else { hex_digit(bytes[i / 2] % 16) },
    )
}

/// `text` without the `0x` prefixes it starts with, however many.
pub open spec fn without_prefix(text: Seq<u8>) -> Seq<u8>
    decreases text.len(),
{
    if text.len() >= 2 && text[0] == 0x30 && text[1] == 0x78 {
        without_prefix(text.skip(2))
    } else {
        text
    }
}

/// The text that the decoder shows for digits that it refuses: which of
/// them is no digit and where, or that their number is odd.
pub uninterp spec fn hex_diagnostic(digits: Seq<u8>) -> Seq<char>;

/// What a run of digits decodes to: its bytes if it is an even number of
/// hexadecimal digits, else the decoder's diagnostic.
pub open spec fn digits_decoded(digits: Seq<u8>) -> Result<Seq<u8>, Seq<char>> {
    if is_hex(digits) {
        Ok(hex_decoded(digits))
    } else {
        Err(hex_diagnostic(digits))
    }
}

/// The bytes that a payload carries: its prefixes are dropped and the rest
/// is decoded as hexadecimal digits.
pub open spec fn payload_bytes(text: Seq<char>) -> Result<Seq<u8>, Seq<char>> {
    digits_decoded(without_prefix(encode_utf8(text)))
}

/// Calls `hex::decode` and, where it fails, shows its error as text. It
/// fails on an odd number of bytes and on any byte that is no hexadecimal
/// digit, and otherwise returns one byte for each pair of digits, the first
/// digit being the high half. The text of the error depends on the digits
/// alone; the contract only gives it the name [`hex_diagnostic`].
#[verifier::external_body]
fn hex_decode(digits: &[u8]) -> (decoded: Result<Vec<u8>, String>)
    ensures
        match decoded {
            Ok(bytes) => is_hex(digits@) && bytes@ == hex_decoded(digits@),
            Err(text) => !is_hex(digits@) && text@ == hex_diagnostic(digits@),
        },
{
    hex::decode(digits).map_err(|error| error.to_string())
}

/// Calls `hex::encode`, which writes each byte as two lower-case digits.
#[verifier::external_body]
pub(crate) fn hex_encode(bytes: &[u8]) -> (text: String)
    ensures
        text@ == hex_encoded(bytes@),
{
    hex::encode(bytes)
}

/// Drops every leading `0x`.
pub fn strip_prefix(text: &[u8]) -> (rest: &[u8])
    ensures
        rest@ == without_prefix(text@),
{
    let mut start: usize = 0;
    assert(text@.skip(0) == text@);
    while text.len() - start >= 2 && text[start] == 0x30 && text[start + 1] == 0x78
        invariant
            start <= text.len(),
            without_prefix(text@) == without_prefix(text@.skip(start as int)),
        decreases text.len() - start,
    {
        assert(text@.skip(start as int).skip(2) == text@.skip(start + 2));
        start += 2;
    }
    slice_subrange(text, start, text.len())
}

/// Decodes a payload: its bytes if it is well formed, else the decoder's
/// diagnostic.
pub fn decode_payload(text: &str) -> (decoded: Result<Vec<u8>, String>)
    ensures
        outcome(decoded) == payload_bytes(text@),
{
    hex_decode(strip_prefix(text.as_bytes()))
}

/// The text of a 32-byte hash: `0x`, then its 64 lower-case digits.
pub fn hash_text(hash: &[u8; 32]) -> (text: String)
    ensures
        text@ == "0x"@ + hex_encoded(hash@),
{
    let digits = hex_encode(hash.as_slice());
    crate::text::prefixed("0x", digits.as_str())
}

} // verus!
