//! Verified game logic of the Ajuna worker: storage keys of the game pallets, call and
//! storage lookups in node metadata, the decisions of the game executor and of the parentchain
//! and sidechain block importers, and the command layer of the client.

pub mod bytes;
pub mod hashing;
pub mod storage;
pub mod metadata;
pub mod pallet_ajuna_runner;
pub mod pallet_game_registry;
pub mod registry_storage;
pub mod stf;
pub mod game_executor;
pub mod parentchain_import;
pub mod sidechain_import;
pub mod cli;
pub mod board_display;
pub mod ocall_bridge;
