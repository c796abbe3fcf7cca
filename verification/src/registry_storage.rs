//! Keys of the `Runner` pallet's storage, built without node metadata: the prefix of a
//! storage type, and the runner entries under it.
use vstd::prelude::*;
use crate::bytes::encode_u64;
use crate::storage::{storage_map_key, StorageHasher};

verus! {

/// The storage prefix of the `Runner` pallet.
pub const RUNNER: &'static str = "Runner";

/// The storage of the `Runner` pallet.
pub struct RunnerStorage;

/// The storage prefix under which a pallet keeps its items. Implementing it gives a type
/// [`RunnerStorageKeys`] for free.
pub trait StoragePrefix {
    fn prefix() -> &'static str;
}

impl StoragePrefix for RunnerStorage {
    /// The `Runner` pallet's prefix.
    fn prefix() -> (p: &'static str)
        ensures
            p@ == RUNNER@,
    {
        RUNNER
    }
}

/// Reads of runner entries.
pub trait RunnerStorageKeys {
    /// The state of the runner `runner_id`. No state is read yet: the key of its `Runners`
    /// entry is built and the answer is always `None`.
    fn runner(runner_id: u64) -> (r: Option<u64>)
        ensures
            r is None,
    ;
}

impl<S: StoragePrefix> RunnerStorageKeys for S {
    fn runner(runner_id: u64) -> (r: Option<u64>) {
        let encoded = encode_u64(runner_id);
        let _key = storage_map_key(S::prefix(), "Runners", encoded.as_slice(), StorageHasher::Blake2_128);
        None
    }
}

} // verus!
