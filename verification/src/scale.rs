//! What the library reads with the SCALE codec.
//!
//! The decoding is done by the `parity-scale-codec` crate. The library names
//! what it returns and trusts that the crate returns just that.

use vstd::prelude::*;
use vstd::string::*;

verus! {

/// What the codec reads from `bytes` as a list of byte strings: a compact
/// length, then that many byte strings, each behind its own compact length.
/// `None` where the codec refuses the bytes. Bytes behind the list are
/// ignored.
pub uninterp spec fn decoded_byte_strings(bytes: Seq<u8>) -> Option<Seq<Seq<u8>>>;

/// The text that the codec shows for bytes that it refuses as a list of
/// byte strings.
pub uninterp spec fn byte_strings_diagnostic(bytes: Seq<u8>) -> Seq<char>;

/// What the bytes decode to as a list of byte strings: the list, or the
/// codec's diagnostic.
pub open spec fn byte_strings(bytes: Seq<u8>) -> Result<Seq<Seq<u8>>, Seq<char>> {
    match decoded_byte_strings(bytes) {
        Some(list) => Ok(list),
        None => Err(byte_strings_diagnostic(bytes)),
    }
}

/// Calls `Decode::decode` of `parity-scale-codec` for `Vec<Vec<u8>>` on the
/// bytes and, where it fails, shows its error as text. Both depend on the
/// bytes alone; the contract only gives them the names
/// [`decoded_byte_strings`] and [`byte_strings_diagnostic`].
#[verifier::external_body]
pub(crate) fn decode_byte_strings(bytes: &[u8]) -> (decoded: Result<Vec<Vec<u8>>, String>)
    ensures
        match decoded {
            Ok(items) => decoded_byte_strings(bytes@) == Some(items.deep_view()),
            Err(text) => decoded_byte_strings(bytes@) is None && text@ == byte_strings_diagnostic(bytes@),
        },
{
    let mut input: &[u8] = bytes;
    <Vec<Vec<u8>> as parity_scale_codec::Decode>::decode(&mut input).map_err(|error| error.to_string())
}

} // verus!
