use ajuna_worker::bytes::{append_bytes, bytes_eq, encode_u32, encode_u64};
use ajuna_worker::game_executor::runner_storage_key;
use ajuna_worker::metadata::{
    CallMetadata, MetadataError, NodeMetadata, PalletMetadata, StorageEntryMetadata,
};
use ajuna_worker::pallet_ajuna_runner::{
    GameRegistryCallIndexes as RunnerCalls, GameRegistryStorageIndexes as RunnerStorageIndexes,
};
use ajuna_worker::pallet_game_registry::{
    GameRegistryCallIndexes as RegistryCalls, GameRegistryStorageIndexes as RegistryStorageIndexes,
};
use ajuna_worker::registry_storage::{RunnerStorage, RunnerStorageKeys, StoragePrefix};
use ajuna_worker::storage::{key_hash, storage_map_key, StorageHasher};

fn hex(bytes: &[u8]) -> String {
    bytes.iter().map(|b| format!("{:02x}", b)).collect()
}

const SYSTEM_ACCOUNT_PREFIX: &str =
    "26aa394eea5630e07c48ae0c9558cef7b99d880ec681799c0cf30e8886371da9";

#[test]
fn u32_and_u64_encode_little_endian() {
    assert_eq!(encode_u32(0x0403_0201), vec![1, 2, 3, 4]);
    assert_eq!(encode_u32(0), vec![0, 0, 0, 0]);
    assert_eq!(encode_u64(0x0807_0605_0403_0201), vec![1, 2, 3, 4, 5, 6, 7, 8]);
    assert_eq!(encode_u64(u64::MAX), vec![255; 8]);
}

#[test]
fn append_and_compare_bytes() {
    let mut v = vec![1u8, 2];
    append_bytes(&mut v, &[3, 4]);
    assert_eq!(v, vec![1, 2, 3, 4]);
    assert!(bytes_eq(&[1, 2], &[1, 2]));
    assert!(!bytes_eq(&[1, 2], &[1, 3]));
    assert!(!bytes_eq(&[1, 2], &[1, 2, 3]));
}

#[test]
fn map_key_starts_with_hashed_pallet_and_item() {
    let key = storage_map_key("System", "Account", &[7u8; 32], StorageHasher::Blake2_128Concat);
    assert_eq!(key.len(), 32 + 16 + 32);
    assert_eq!(hex(&key[..32]), SYSTEM_ACCOUNT_PREFIX);
    assert_eq!(&key[48..], &[7u8; 32][..]);
}

#[test]
fn key_hashers_give_known_digests_of_empty_input() {
    assert_eq!(hex(&key_hash(&[], StorageHasher::Blake2_128)), "cae66941d9efbd404e4d88758ea67670");
    assert_eq!(hex(&key_hash(&[], StorageHasher::Twox64Concat)), "99e9d85137db46ef");
    assert_eq!(key_hash(&[1, 2, 3], StorageHasher::Identity), vec![1, 2, 3]);
    assert_eq!(key_hash(&[1, 2, 3], StorageHasher::Blake2_256).len(), 32);
    assert_eq!(key_hash(&[1, 2, 3], StorageHasher::Twox256).len(), 32);
    assert_eq!(key_hash(&[1, 2, 3], StorageHasher::Twox128).len(), 16);
    let concat = key_hash(&[1, 2, 3], StorageHasher::Blake2_128Concat);
    assert_eq!(concat.len(), 19);
    assert_eq!(&concat[16..], &[1, 2, 3]);
    assert_eq!(&concat[..16], &key_hash(&[1, 2, 3], StorageHasher::Blake2_128)[..]);
}

#[test]
fn keys_of_one_map_share_their_prefix() {
    let a = runner_storage_key(1);
    let b = runner_storage_key(2);
    assert_eq!(a.len(), 48);
    assert_eq!(&a[..32], &b[..32]);
    assert_ne!(a, b);
    assert_eq!(&a[..], &storage_map_key("Runner", "Runners", &[1, 0, 0, 0], StorageHasher::Blake2_128)[..]);
}

fn metadata() -> NodeMetadata {
    NodeMetadata {
        node_metadata: Some(vec![
            PalletMetadata {
                name: "System".to_string(),
                index: 0,
                calls: vec![CallMetadata { name: "remark".to_string(), index: 1 }],
                storage: vec![],
            },
            PalletMetadata {
                name: "Runner".to_string(),
                index: 7,
                calls: vec![
                    CallMetadata { name: "queue".to_string(), index: 0 },
                    CallMetadata { name: "drop_game".to_string(), index: 1 },
                    CallMetadata { name: "ack_game".to_string(), index: 2 },
                    CallMetadata { name: "finish_game".to_string(), index: 3 },
                ],
                storage: vec![
                    StorageEntryMetadata {
                        name: "Runners".to_string(),
                        hasher: Some(StorageHasher::Blake2_128),
                    },
                    StorageEntryMetadata { name: "Players".to_string(), hasher: None },
                ],
            },
            PalletMetadata {
                name: "GameRegistry".to_string(),
                index: 9,
                calls: vec![
                    CallMetadata { name: "queue".to_string(), index: 4 },
                    CallMetadata { name: "ready_game".to_string(), index: 5 },
                ],
                storage: vec![StorageEntryMetadata {
                    name: "GameQueues".to_string(),
                    hasher: Some(StorageHasher::Identity),
                }],
            },
        ]),
    }
}

#[test]
fn call_indexes_are_looked_up_by_pallet_and_call() {
    let md = metadata();
    assert_eq!(md.call_indexes("System", "remark"), Ok([0, 1]));
    assert_eq!(RunnerCalls::queue_call_indexes(&md), Ok([7, 0]));
    assert_eq!(RunnerCalls::drop_game_call_indexes(&md), Ok([7, 1]));
    assert_eq!(RunnerCalls::ack_game_call_indexes(&md), Ok([7, 2]));
    assert_eq!(RunnerCalls::finish_game_call_indexes(&md), Ok([7, 3]));
    assert_eq!(RegistryCalls::queue_call_indexes(&md), Ok([9, 4]));
    assert_eq!(RegistryCalls::ready_game_call_indexes(&md), Ok([9, 5]));
    assert_eq!(RegistryCalls::ack_game_call_indexes(&md), Err(MetadataError::CallNotFound));
    assert_eq!(md.call_indexes("Balances", "transfer"), Err(MetadataError::PalletNotFound));
    let unset = NodeMetadata { node_metadata: None };
    assert_eq!(RunnerCalls::queue_call_indexes(&unset), Err(MetadataError::MetadataNotSet));
}

#[test]
fn storage_keys_follow_the_hasher_in_the_metadata() {
    let md = metadata();
    let key = RunnerStorageIndexes::runner_storage_map_key(&md, 1).unwrap();
    assert_eq!(key, runner_storage_key(1));
    assert_eq!(
        RunnerStorageIndexes::players_storage_map_key(&md, [0; 32]),
        Err(MetadataError::StorageTypeError)
    );
    let queues = RegistryStorageIndexes::game_queues_storage_map_key(&md, 5).unwrap();
    assert_eq!(
        queues,
        storage_map_key("GameRegistry", "GameQueues", &[5, 0, 0, 0, 0, 0, 0, 0], StorageHasher::Identity)
    );
    assert_eq!(&queues[32..], &[5, 0, 0, 0, 0, 0, 0, 0]);
    assert_eq!(
        RegistryStorageIndexes::game_registry_storage_map_key(&md, 5),
        Err(MetadataError::StorageItemNotFound)
    );
    assert_eq!(
        md.storage_map_key("Nothing", "Runners", &[]),
        Err(MetadataError::PalletNotFound)
    );
    let unset = NodeMetadata { node_metadata: None };
    assert_eq!(
        RunnerStorageIndexes::runner_storage_map_key(&unset, 1),
        Err(MetadataError::MetadataNotSet)
    );
}

#[test]
fn first_pallet_of_a_name_wins() {
    let mut md = metadata();
    if let Some(pallets) = md.node_metadata.as_mut() {
        pallets.push(PalletMetadata {
            name: "Runner".to_string(),
            index: 99,
            calls: vec![CallMetadata { name: "queue".to_string(), index: 42 }],
            storage: vec![],
        });
    }
    assert_eq!(RunnerCalls::queue_call_indexes(&md), Ok([7, 0]));
}

#[test]
fn runner_storage_reads_nothing_yet() {
    assert_eq!(RunnerStorage::prefix(), "Runner");
    assert_eq!(RunnerStorage::runner(3), None);
}
