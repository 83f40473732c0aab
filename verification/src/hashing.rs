//! The hash functions that storage keys are built from.
//!
//! The digests are computed by the `sp-core-hashing` crate. The library names
//! each digest and trusts that the crate's function returns it; nothing is
//! known of a digest but its length, which its type gives.

use vstd::prelude::*;

verus! {

/// The 128-bit XX hash of `data`: two 64-bit XX hashes, with seeds 0 and 1,
/// each written little-endian.
pub uninterp spec fn twox_128_digest(data: Seq<u8>) -> [u8; 16];

/// The 64-bit XX hash of `data` with seed 0, written little-endian.
pub uninterp spec fn twox_64_digest(data: Seq<u8>) -> [u8; 8];

/// The 256-bit XX hash of `data`: four 64-bit XX hashes, with seeds 0 to 3.
pub uninterp spec fn twox_256_digest(data: Seq<u8>) -> [u8; 32];

/// The Blake2b hash of `data` with a 128-bit digest.
pub uninterp spec fn blake2_128_digest(data: Seq<u8>) -> [u8; 16];

/// The Blake2b hash of `data` with a 256-bit digest.
pub uninterp spec fn blake2_256_digest(data: Seq<u8>) -> [u8; 32];

/// Calls `sp_core_hashing::twox_128`, which is a function of the bytes alone;
/// the contract only gives its result the name [`twox_128_digest`].
#[verifier::external_body]
pub(crate) fn twox_128(data: &[u8]) -> (digest: [u8; 16])
    ensures
        digest == twox_128_digest(data@),
{
    sp_core_hashing::twox_128(data)
}

/// Calls `sp_core_hashing::twox_64`, which is a function of the bytes alone;
/// the contract only gives its result the name [`twox_64_digest`].
#[verifier::external_body]
pub(crate) fn twox_64(data: &[u8]) -> (digest: [u8; 8])
    ensures
        digest == twox_64_digest(data@),
{
    sp_core_hashing::twox_64(data)
}

/// Calls `sp_core_hashing::twox_256`, which is a function of the bytes alone;
/// the contract only gives its result the name [`twox_256_digest`].
#[verifier::external_body]
pub(crate) fn twox_256(data: &[u8]) -> (digest: [u8; 32])
    ensures
        digest == twox_256_digest(data@),
{
    sp_core_hashing::twox_256(data)
}

/// Calls `sp_core_hashing::blake2_128`, which is a function of the bytes
/// alone; the contract only gives its result the name [`blake2_128_digest`].
#[verifier::external_body]
pub(crate) fn blake2_128(data: &[u8]) -> (digest: [u8; 16])
    ensures
        digest == blake2_128_digest(data@),
{
    sp_core_hashing::blake2_128(data)
}

/// Calls `sp_core_hashing::blake2_256`, which is a function of the bytes
/// alone; the contract only gives its result the name [`blake2_256_digest`].
#[verifier::external_body]
pub(crate) fn blake2_256(data: &[u8]) -> (digest: [u8; 32])
    ensures
        digest == blake2_256_digest(data@),
{
    sp_core_hashing::blake2_256(data)
}

} // verus!
