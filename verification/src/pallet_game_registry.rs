//! Call indexes and storage keys of the `GameRegistry` pallet, where players queue for games
//! and the worker reports their outcome.
use vstd::prelude::*;
use crate::bytes::{encode_u64, u64_le_bytes};
use crate::metadata::{MetadataError, NodeMetadata};

verus! {

/// The name of the pallet.
pub const GAME_REGISTRY: &'static str = "GameRegistry";

/// Storage keys of the pallet's maps.
pub trait GameRegistryStorageIndexes {
    fn game_queues_storage_map_key(&self, index: u64) -> Result<Vec<u8>, MetadataError>;

    fn game_registry_storage_map_key(&self, index: u64) -> Result<Vec<u8>, MetadataError>;
}

impl GameRegistryStorageIndexes for NodeMetadata {
    /// The key of the `GameQueues` entry under `index`.
    fn game_queues_storage_map_key(&self, index: u64) -> (r: Result<Vec<u8>, MetadataError>)
        ensures
            match (r, self.spec_storage_map_key("GameRegistry", "GameQueues", u64_le_bytes(index))) {
                (Ok(k), Ok(s)) => k@ == s,
                (Err(e), Err(f)) => e == f,
                _ => false,
            },
    {
        let encoded = encode_u64(index);
        self.storage_map_key(GAME_REGISTRY, "GameQueues", encoded.as_slice())
    }

    /// The key of the `GameRegistry` entry under `index`.
    fn game_registry_storage_map_key(&self, index: u64) -> (r: Result<Vec<u8>, MetadataError>)
        ensures
            match (r, self.spec_storage_map_key("GameRegistry", "GameRegistry", u64_le_bytes(index))) {
                (Ok(k), Ok(s)) => k@ == s,
                (Err(e), Err(f)) => e == f,
                _ => false,
            },
    {
        let encoded = encode_u64(index);
        self.storage_map_key(GAME_REGISTRY, "GameRegistry", encoded.as_slice())
    }
}

/// Indexes of the pallet's calls, for composing extrinsics.
pub trait GameRegistryCallIndexes {
    fn queue_call_indexes(&self) -> Result<[u8; 2], MetadataError>;

    fn drop_game_call_indexes(&self) -> Result<[u8; 2], MetadataError>;

    fn ack_game_call_indexes(&self) -> Result<[u8; 2], MetadataError>;

    fn ready_game_call_indexes(&self) -> Result<[u8; 2], MetadataError>;

    fn finish_game_call_indexes(&self) -> Result<[u8; 2], MetadataError>;
}

impl GameRegistryCallIndexes for NodeMetadata {
    /// The indexes of the pallet's `queue` call.
    fn queue_call_indexes(&self) -> (r: Result<[u8; 2], MetadataError>)
        ensures
            match (r, self.spec_call_indexes("GameRegistry"@, "queue"@)) {
                (Ok(ix), Ok(s)) => ix@ == s,
                (Err(e), Err(f)) => e == f,
                _ => false,
            },
    {
        self.call_indexes(GAME_REGISTRY, "queue")
    }

    /// The indexes of the pallet's `drop_game` call.
    fn drop_game_call_indexes(&self) -> (r: Result<[u8; 2], MetadataError>)
        ensures
            match (r, self.spec_call_indexes("GameRegistry"@, "drop_game"@)) {
                (Ok(ix), Ok(s)) => ix@ == s,
                (Err(e), Err(f)) => e == f,
                _ => false,
            },
    {
        self.call_indexes(GAME_REGISTRY, "drop_game")
    }

    /// The indexes of the pallet's `ack_game` call.
    fn ack_game_call_indexes(&self) -> (r: Result<[u8; 2], MetadataError>)
        ensures
            match (r, self.spec_call_indexes("GameRegistry"@, "ack_game"@)) {
                (Ok(ix), Ok(s)) => ix@ == s,
                (Err(e), Err(f)) => e == f,
                _ => false,
            },
    {
        self.call_indexes(GAME_REGISTRY, "ack_game")
    }

    /// The indexes of the pallet's `ready_game` call.
    fn ready_game_call_indexes(&self) -> (r: Result<[u8; 2], MetadataError>)
        ensures
            match (r, self.spec_call_indexes("GameRegistry"@, "ready_game"@)) {
                (Ok(ix), Ok(s)) => ix@ == s,
                (Err(e), Err(f)) => e == f,
                _ => false,
            },
    {
        self.call_indexes(GAME_REGISTRY, "ready_game")
    }

    /// The indexes of the pallet's `finish_game` call.
    fn finish_game_call_indexes(&self) -> (r: Result<[u8; 2], MetadataError>)
        ensures
            match (r, self.spec_call_indexes("GameRegistry"@, "finish_game"@)) {
                (Ok(ix), Ok(s)) => ix@ == s,
                (Err(e), Err(f)) => e == f,
                _ => false,
            },
    {
        self.call_indexes(GAME_REGISTRY, "finish_game")
    }
}

} // verus!
