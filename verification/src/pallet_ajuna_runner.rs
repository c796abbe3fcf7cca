//! Call indexes and storage keys of the `Runner` pallet, which tracks the games that the
//! worker runs.
use vstd::prelude::*;
use crate::bytes::{encode_u32, u32_le_bytes};
use crate::metadata::{MetadataError, NodeMetadata};

verus! {

/// Identifies a game in the `Runner` pallet.
pub type GameId = u32;

/// The name of the pallet.
pub const RUNNER: &'static str = "Runner";

/// Storage keys of the pallet's maps.
pub trait GameRegistryStorageIndexes {
    fn runner_storage_map_key(&self, runner_id: GameId) -> Result<Vec<u8>, MetadataError>;

    fn players_storage_map_key(&self, game_hash: [u8; 32]) -> Result<Vec<u8>, MetadataError>;
}

impl GameRegistryStorageIndexes for NodeMetadata {
    /// The key of the `Runners` entry of a game.
    fn runner_storage_map_key(&self, runner_id: GameId) -> (r: Result<Vec<u8>, MetadataError>)
        ensures
            match (r, self.spec_storage_map_key("Runner", "Runners", u32_le_bytes(runner_id))) {
                (Ok(k), Ok(s)) => k@ == s,
                (Err(e), Err(f)) => e == f,
                _ => false,
            },
    {
        let encoded = encode_u32(runner_id);
        self.storage_map_key(RUNNER, "Runners", encoded.as_slice())
    }

    /// The key of the `Players` entry of a game, by the game's hash.
    fn players_storage_map_key(&self, game_hash: [u8; 32]) -> (r: Result<Vec<u8>, MetadataError>)
        ensures
            match (r, self.spec_storage_map_key("Runner", "Players", game_hash@)) {
                (Ok(k), Ok(s)) => k@ == s,
                (Err(e), Err(f)) => e == f,
                _ => false,
            },
    {
        self.storage_map_key(RUNNER, "Players", game_hash.as_slice())
    }
}

/// Indexes of the pallet's calls, for composing extrinsics.
pub trait GameRegistryCallIndexes {
    fn queue_call_indexes(&self) -> Result<[u8; 2], MetadataError>;

    fn drop_game_call_indexes(&self) -> Result<[u8; 2], MetadataError>;

    fn ack_game_call_indexes(&self) -> Result<[u8; 2], MetadataError>;

    fn finish_game_call_indexes(&self) -> Result<[u8; 2], MetadataError>;
}

impl GameRegistryCallIndexes for NodeMetadata {
    /// The indexes of the pallet's `queue` call.
    fn queue_call_indexes(&self) -> (r: Result<[u8; 2], MetadataError>)
        ensures
            match (r, self.spec_call_indexes("Runner"@, "queue"@)) {
                (Ok(ix), Ok(s)) => ix@ == s,
                (Err(e), Err(f)) => e == f,
                _ => false,
            },
    {
        self.call_indexes(RUNNER, "queue")
    }

    /// The indexes of the pallet's `drop_game` call.
    fn drop_game_call_indexes(&self) -> (r: Result<[u8; 2], MetadataError>)
        ensures
            match (r, self.spec_call_indexes("Runner"@, "drop_game"@)) {
                (Ok(ix), Ok(s)) => ix@ == s,
                (Err(e), Err(f)) => e == f,
                _ => false,
            },
    {
        self.call_indexes(RUNNER, "drop_game")
    }

    /// The indexes of the pallet's `ack_game` call.
    fn ack_game_call_indexes(&self) -> (r: Result<[u8; 2], MetadataError>)
        ensures
            match (r, self.spec_call_indexes("Runner"@, "ack_game"@)) {
                (Ok(ix), Ok(s)) => ix@ == s,
                (Err(e), Err(f)) => e == f,
                _ => false,
            },
    {
        self.call_indexes(RUNNER, "ack_game")
    }

    /// The indexes of the pallet's `finish_game` call.
    fn finish_game_call_indexes(&self) -> (r: Result<[u8; 2], MetadataError>)
        ensures
            match (r, self.spec_call_indexes("Runner"@, "finish_game"@)) {
                (Ok(ix), Ok(s)) => ix@ == s,
                (Err(e), Err(f)) => e == f,
                _ => false,
            },
    {
        self.call_indexes(RUNNER, "finish_game")
    }
}

} // verus!
