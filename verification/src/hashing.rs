//! The hash functions that storage keys are built from. Each is computed by the
//! `sp-core-hashing` crate; what a digest is on given bytes is left to that crate.
use vstd::prelude::*;

verus! {

/// What `sp_core_hashing::twox_64` returns for the given bytes.
pub uninterp spec fn twox_64_digest(data: Seq<u8>) -> Seq<u8>;

/// What `sp_core_hashing::twox_128` returns for the given bytes.
pub uninterp spec fn twox_128_digest(data: Seq<u8>) -> Seq<u8>;

/// What `sp_core_hashing::twox_256` returns for the given bytes.
pub uninterp spec fn twox_256_digest(data: Seq<u8>) -> Seq<u8>;

/// What `sp_core_hashing::blake2_128` returns for the given bytes.
pub uninterp spec fn blake2_128_digest(data: Seq<u8>) -> Seq<u8>;

/// What `sp_core_hashing::blake2_256` returns for the given bytes.
pub uninterp spec fn blake2_256_digest(data: Seq<u8>) -> Seq<u8>;

/// Calls `sp_core_hashing::twox_64`: the 64-bit xxHash of `data`, eight bytes long.
/// The contract only ties the digest to the input by name.
#[verifier::external_body]
pub(crate) fn twox_64(data: &[u8]) -> (digest: [u8; 8])
    ensures
        digest@ == twox_64_digest(data@),
{
    sp_core_hashing::twox_64(data)
}

/// Calls `sp_core_hashing::twox_128`: two 64-bit xxHash rounds of `data`, sixteen bytes long.
#[verifier::external_body]
pub(crate) fn twox_128(data: &[u8]) -> (digest: [u8; 16])
    ensures
        digest@ == twox_128_digest(data@),
{
    sp_core_hashing::twox_128(data)
}

/// Calls `sp_core_hashing::twox_256`: four 64-bit xxHash rounds of `data`, 32 bytes long.
#[verifier::external_body]
pub(crate) fn twox_256(data: &[u8]) -> (digest: [u8; 32])
    ensures
        digest@ == twox_256_digest(data@),
{
    sp_core_hashing::twox_256(data)
}

/// Calls `sp_core_hashing::blake2_128`: the 128-bit BLAKE2b digest of `data`.
#[verifier::external_body]
pub(crate) fn blake2_128(data: &[u8]) -> (digest: [u8; 16])
    ensures
        digest@ == blake2_128_digest(data@),
{
    sp_core_hashing::blake2_128(data)
}

/// Calls `sp_core_hashing::blake2_256`: the 256-bit BLAKE2b digest of `data`.
#[verifier::external_body]
pub(crate) fn blake2_256(data: &[u8]) -> (digest: [u8; 32])
    ensures
        digest@ == blake2_256_digest(data@),
{
    sp_core_hashing::blake2_256(data)
}

} // verus!
