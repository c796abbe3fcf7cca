//! Keys of storage map entries on the parentchain: the twox-128 hash of the pallet's prefix,
//! the twox-128 hash of the item's name, then the map key hashed as the item prescribes.
use vstd::prelude::*;
use crate::bytes::append_bytes;
use vstd::string::StringSliceAdditionalSpecFns;
use crate::hashing::{
    blake2_128, blake2_128_digest, blake2_256, blake2_256_digest, twox_128, twox_128_digest, twox_256,
    twox_256_digest, twox_64, twox_64_digest,
};

verus! {

/// How a storage map hashes its keys.
#[derive(Clone, Copy, Debug, PartialEq, Eq)]
pub enum StorageHasher {
    Blake2_128,
    Blake2_256,
    Blake2_128Concat,
    Twox128,
    Twox256,
    Twox64Concat,
    Identity,
}

/// The part of a storage key that comes from the SCALE-encoded map key under `hasher`.
pub open spec fn key_hash_spec(encoded_key: Seq<u8>, hasher: StorageHasher) -> Seq<u8> {
    match hasher {
        StorageHasher::Identity => encoded_key,
        StorageHasher::Blake2_128 => blake2_128_digest(encoded_key),
        StorageHasher::Blake2_128Concat => blake2_128_digest(encoded_key) + encoded_key,
        StorageHasher::Blake2_256 => blake2_256_digest(encoded_key),
        StorageHasher::Twox128 => twox_128_digest(encoded_key),
        StorageHasher::Twox256 => twox_256_digest(encoded_key),
        StorageHasher::Twox64Concat => twox_64_digest(encoded_key) + encoded_key,
    }
}

/// The prefix shared by all keys of one storage item.
pub open spec fn storage_prefix_spec(module_prefix: Seq<u8>, storage_prefix: Seq<u8>) -> Seq<u8> {
    twox_128_digest(module_prefix) + twox_128_digest(storage_prefix)
}

/// The full key of one entry of a storage map.
pub open spec fn storage_map_key_spec(
    module_prefix: Seq<u8>,
    storage_prefix: Seq<u8>,
    encoded_key: Seq<u8>,
    hasher: StorageHasher,
) -> Seq<u8> {
    storage_prefix_spec(module_prefix, storage_prefix) + key_hash_spec(encoded_key, hasher)
}

/// Hashes an encoded map key as `hasher` prescribes.
pub fn key_hash(encoded_key: &[u8], hasher: StorageHasher) -> (hashed: Vec<u8>)
    ensures
        hashed@ == key_hash_spec(encoded_key@, hasher),
{
    let mut out: Vec<u8> = Vec::new();
    match hasher {
        StorageHasher::Identity => {
            append_bytes(&mut out, encoded_key);
        },
        StorageHasher::Blake2_128 => {
            let d = blake2_128(encoded_key);
            append_bytes(&mut out, d.as_slice());
        },
        StorageHasher::Blake2_128Concat => {
            let d = blake2_128(encoded_key);
            append_bytes(&mut out, d.as_slice());
            append_bytes(&mut out, encoded_key);
        },
        StorageHasher::Blake2_256 => {
            let d = blake2_256(encoded_key);
            append_bytes(&mut out, d.as_slice());
        },
        StorageHasher::Twox128 => {
            let d = twox_128(encoded_key);
            append_bytes(&mut out, d.as_slice());
        },
        StorageHasher::Twox256 => {
            let d = twox_256(encoded_key);
            append_bytes(&mut out, d.as_slice());
        },
        StorageHasher::Twox64Concat => {
            let d = twox_64(encoded_key);
            append_bytes(&mut out, d.as_slice());
            append_bytes(&mut out, encoded_key);
        },
    }
    out
}

/// The key of the entry under `encoded_key` of the map `storage_prefix` of the pallet
/// `module_prefix`.
pub fn storage_map_key(
    module_prefix: &str,
    storage_prefix: &str,
    encoded_key: &[u8],
    hasher: StorageHasher,
) -> (key: Vec<u8>)
    ensures
        key@ == storage_map_key_spec(
            module_prefix.spec_bytes(),
            storage_prefix.spec_bytes(),
            encoded_key@,
            hasher,
        ),
{
    let mut out: Vec<u8> = Vec::new();
    let m = twox_128(module_prefix.as_bytes());
    append_bytes(&mut out, m.as_slice());
    let s = twox_128(storage_prefix.as_bytes());
    append_bytes(&mut out, s.as_slice());
    let h = key_hash(encoded_key, hasher);
    append_bytes(&mut out, h.as_slice());
    assert(out@ == twox_128_digest(module_prefix.spec_bytes()) + twox_128_digest(storage_prefix.spec_bytes()) + key_hash_spec(encoded_key@, hasher));
    out
}

/// The map-key part of a storage key hashes the SCALE-encoded key exactly as given: each
/// hasher applies its digest to those bytes, the `Concat` hashers then append the bytes
/// themselves (so that the map key can be read back from the storage key), and `Identity`
/// keeps them unchanged. The full key is the hashed pallet and item names followed by that
/// part.
pub proof fn lemma_map_key_hashes_the_encoded_key(
    module_prefix: Seq<u8>,
    storage_prefix: Seq<u8>,
    encoded_key: Seq<u8>,
)
    ensures
        key_hash_spec(encoded_key, StorageHasher::Identity) == encoded_key,
        key_hash_spec(encoded_key, StorageHasher::Blake2_128) == blake2_128_digest(encoded_key),
        key_hash_spec(encoded_key, StorageHasher::Blake2_128Concat) == blake2_128_digest(encoded_key)
            + encoded_key,
        key_hash_spec(encoded_key, StorageHasher::Blake2_256) == blake2_256_digest(encoded_key),
        key_hash_spec(encoded_key, StorageHasher::Twox128) == twox_128_digest(encoded_key),
        key_hash_spec(encoded_key, StorageHasher::Twox256) == twox_256_digest(encoded_key),
        key_hash_spec(encoded_key, StorageHasher::Twox64Concat) == twox_64_digest(encoded_key)
            + encoded_key,
        storage_map_key_spec(module_prefix, storage_prefix, encoded_key, StorageHasher::Blake2_128)
            == twox_128_digest(module_prefix) + twox_128_digest(storage_prefix) + blake2_128_digest(
            encoded_key,
        ),
        ({
            let key = storage_map_key_spec(module_prefix, storage_prefix, encoded_key, StorageHasher::Blake2_128Concat);
            key.subrange(key.len() - encoded_key.len(), key.len() as int) == encoded_key
        }),
        ({
            let key = storage_map_key_spec(module_prefix, storage_prefix, encoded_key, StorageHasher::Twox64Concat);
            key.subrange(key.len() - encoded_key.len(), key.len() as int) == encoded_key
        }),
{
    let p = storage_prefix_spec(module_prefix, storage_prefix);
    let k1 = storage_map_key_spec(module_prefix, storage_prefix, encoded_key, StorageHasher::Blake2_128Concat);
    assert(k1 =~= (p + blake2_128_digest(encoded_key)) + encoded_key);
    assert(k1.subrange(k1.len() - encoded_key.len(), k1.len() as int) =~= encoded_key);
    let k2 = storage_map_key_spec(module_prefix, storage_prefix, encoded_key, StorageHasher::Twox64Concat);
    assert(k2 =~= (p + twox_64_digest(encoded_key)) + encoded_key);
    assert(k2.subrange(k2.len() - encoded_key.len(), k2.len() as int) =~= encoded_key);
}

/// All keys of one storage map begin with the same prefix, built from the pallet and item
/// names alone, so that the map's entries can be found by that prefix.
pub proof fn lemma_map_keys_share_prefix(
    module_prefix: Seq<u8>,
    storage_prefix: Seq<u8>,
    encoded_key: Seq<u8>,
    hasher: StorageHasher,
)
    ensures
        storage_map_key_spec(module_prefix, storage_prefix, encoded_key, hasher).subrange(
            0,
            storage_prefix_spec(module_prefix, storage_prefix).len() as int,
        ) == storage_prefix_spec(module_prefix, storage_prefix),
{
    let p = storage_prefix_spec(module_prefix, storage_prefix);
    let k = key_hash_spec(encoded_key, hasher);
    assert((p + k).subrange(0, p.len() as int) =~= p);
}

} // verus!
