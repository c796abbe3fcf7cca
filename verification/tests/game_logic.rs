use ajuna_worker::game_executor::{
    account_eq, account_less_than, board_finish_game_call, board_new_game_call, make_player_set,
    plan_new_game, NewGamePlan, RunnerState, StfGameExecutor,
};
use ajuna_worker::parentchain_import::{
    ack_game_call, collect_block_calls, ImportedBlock, ParentchainBlockImporter,
};
use ajuna_worker::sidechain_import::{
    block_author_is_self, executed_operations, finish_game_call, finished_game_winner,
    latest_parentchain_header, operations_to_remove, peek_parentchain_header, play_turn_accounts,
    BlockImporter, BoardState, ConsensusError, ExecutionStatus, ParentchainHeader, SgxBoardStruct,
    SidechainBlock, TrustedOperationOrHash,
};
use ajuna_worker::stf::{OpaqueCall, SgxGameTurn, Side, TrustedCall};
use std::sync::Arc;

fn account(b: u8) -> [u8; 32] {
    let mut a = [0u8; 32];
    a[0] = b;
    a
}

#[test]
fn accounts_are_ordered_bytewise() {
    let mut a = [5u8; 32];
    let mut b = [5u8; 32];
    a[31] = 1;
    b[31] = 2;
    assert!(account_less_than(&a, &b));
    assert!(!account_less_than(&b, &a));
    assert!(!account_less_than(&a, &a));
    assert!(account_eq(&a, &a));
    assert!(!account_eq(&a, &b));
    assert!(account_less_than(&account(1), &account(200)));
}

#[test]
fn player_set_is_ordered_and_without_repetition() {
    assert_eq!(make_player_set(account(2), account(1)), vec![account(1), account(2)]);
    assert_eq!(make_player_set(account(1), account(2)), vec![account(1), account(2)]);
    assert_eq!(make_player_set(account(3), account(3)), vec![account(3)]);
}

#[test]
fn new_game_plan_covers_every_runner_entry() {
    let two = Some(vec![account(9), account(4)]);
    assert_eq!(plan_new_game(&None, &two), NewGamePlan::NoGameEntry);
    assert_eq!(plan_new_game(&Some(RunnerState::Queued(vec![1])), &two), NewGamePlan::NotAccepted);
    assert_eq!(plan_new_game(&Some(RunnerState::Finished(vec![])), &two), NewGamePlan::NotAccepted);
    let accepted = Some(RunnerState::Accepted(vec![1, 2, 3]));
    assert_eq!(plan_new_game(&accepted, &None), NewGamePlan::DecodingFailed);
    assert_eq!(
        plan_new_game(&accepted, &Some(vec![account(1)])),
        NewGamePlan::WrongPlayerCount(1)
    );
    assert_eq!(
        plan_new_game(&accepted, &Some(vec![account(1), account(2), account(3)])),
        NewGamePlan::WrongPlayerCount(3)
    );
    assert_eq!(plan_new_game(&accepted, &two), NewGamePlan::Start(vec![account(4), account(9)]));
}

#[test]
fn game_calls_carry_root_game_and_players() {
    assert_eq!(
        board_new_game_call(account(0), 7, vec![account(1), account(2)]),
        TrustedCall::BoardNewGame(account(0), 7, vec![account(1), account(2)])
    );
    assert_eq!(board_finish_game_call(account(0), 7), TrustedCall::BoardFinishGame(account(0), 7));
}

#[test]
fn executor_keeps_its_components() {
    let handler = Arc::new(1u8);
    let api = Arc::new("api");
    let executor = StfGameExecutor::new(handler.clone(), api.clone());
    assert!(Arc::ptr_eq(executor.state_handler(), &handler));
    assert!(Arc::ptr_eq(executor.ocall_api(), &api));
}

#[test]
fn ack_game_call_encodes_index_games_and_shard() {
    let call = ack_game_call([3, 4], &vec![1, 258], &[9u8; 32]);
    let mut expected = vec![3, 4, 8, 1, 0, 0, 0, 2, 1, 0, 0];
    expected.extend_from_slice(&[9u8; 32]);
    assert_eq!(call.bytes, expected);
    let many: Vec<u32> = (0..64).collect();
    let call = ack_game_call([0, 0], &many, &[0u8; 32]);
    assert_eq!(&call.bytes[2..4], &[0x01, 0x01]);
    assert_eq!(call.bytes.len(), 2 + 2 + 64 * 4 + 32);
}

#[test]
fn imported_blocks_contribute_their_calls_in_order() {
    let mut calls = Vec::new();
    let shards = vec![[1u8; 32], [2u8; 32]];
    collect_block_calls(
        &mut calls,
        &ImportedBlock { indirect_calls: Some(OpaqueCall { bytes: vec![0xaa] }), queued_games: None },
        [5, 6],
        &shards,
    );
    collect_block_calls(
        &mut calls,
        &ImportedBlock { indirect_calls: None, queued_games: Some(vec![]) },
        [5, 6],
        &shards,
    );
    collect_block_calls(
        &mut calls,
        &ImportedBlock {
            indirect_calls: Some(OpaqueCall { bytes: vec![0xbb] }),
            queued_games: Some(vec![7]),
        },
        [5, 6],
        &shards,
    );
    assert_eq!(calls.len(), 3);
    assert_eq!(calls[0].bytes, vec![0xaa]);
    assert_eq!(calls[1].bytes, vec![0xbb]);
    assert_eq!(calls[2], ack_game_call([5, 6], &vec![7], &[1u8; 32]));
}

#[test]
fn parentchain_importer_keeps_its_components() {
    let importer = ParentchainBlockImporter::new(
        Arc::new(1u8),
        Arc::new(2u16),
        Arc::new(3u32),
        Arc::new(4u64),
        Arc::new(5i8),
    );
    assert_eq!(**importer.validator_accessor(), 1);
    assert_eq!(**importer.stf_executor(), 2);
    assert_eq!(**importer.extrinsics_factory(), 3);
    assert_eq!(**importer.indirect_calls_executor(), 4);
    assert_eq!(**importer.file_state_handler(), 5);
}

fn header(b: u8, number: u32) -> ParentchainHeader {
    ParentchainHeader { hash: [b; 32], number }
}

fn sidechain_block(head: u8, author: u8) -> SidechainBlock {
    SidechainBlock {
        layer_one_head: [head; 32],
        block_number: 12,
        hash: [0xcc; 32],
        block_author: account(author),
        signed_top_hashes: vec![[1; 32], [2; 32]],
        shard_id: [0xdd; 32],
    }
}

#[test]
fn peek_finds_the_referenced_parentchain_header() {
    let last = header(1, 10);
    let queue = vec![header(2, 11), header(3, 12), header(3, 13)];
    assert_eq!(peek_parentchain_header(&sidechain_block(1, 0), &last, &queue), Ok(last));
    assert_eq!(peek_parentchain_header(&sidechain_block(3, 0), &last, &queue), Ok(header(3, 12)));
    assert_eq!(
        peek_parentchain_header(&sidechain_block(4, 0), &last, &queue),
        Err(ConsensusError::MissingParentchainHeader([4; 32], 12, [0xcc; 32]))
    );
    assert_eq!(latest_parentchain_header(Some(header(5, 5)), &last), header(5, 5));
    assert_eq!(latest_parentchain_header(None, &last), last);
}

#[test]
fn own_blocks_remove_their_operations_from_the_pool() {
    assert!(block_author_is_self(&account(1), &account(1)));
    assert!(!block_author_is_self(&account(1), &account(2)));
    let ops = executed_operations(&vec![[1; 32], [2; 32]]);
    assert_eq!(ops.len(), 2);
    assert_eq!(ops[1].status, ExecutionStatus::Success);
    assert_eq!(ops[1].trusted_operation_or_hash, TrustedOperationOrHash::Hash([2; 32]));
    assert!(ops[1].extrinsic_hashes.is_empty());
    let (shard, removed) = operations_to_remove(&sidechain_block(1, 7), &account(7)).unwrap();
    assert_eq!(shard, [0xdd; 32]);
    assert_eq!(removed, ops);
    assert_eq!(operations_to_remove(&sidechain_block(1, 7), &account(8)), None);
}

#[test]
fn boards_to_check_are_those_of_connect_four_players() {
    let calls = vec![
        TrustedCall::ConnectfourPlayTurn(account(1), 3),
        TrustedCall::BoardPlayTurn(account(2), SgxGameTurn::DropStone((Side::North, 1))),
        TrustedCall::ConnectfourPlayTurn(account(3), 0),
        TrustedCall::BoardFinishGame(account(4), 1),
    ];
    assert_eq!(play_turn_accounts(&calls), vec![account(1), account(3)]);
    assert_eq!(play_turn_accounts(&vec![]), Vec::<[u8; 32]>::new());
}

fn board(next_player: u8, board_state: BoardState) -> SgxBoardStruct {
    SgxBoardStruct {
        red: account(1),
        blue: account(2),
        board: [[0; 6]; 7],
        last_turn: 3,
        next_player,
        board_state,
    }
}

#[test]
fn winner_is_the_player_not_to_move_next() {
    let hash = [0xcc; 32];
    assert_eq!(finished_game_winner(&board(1, BoardState::Finished(account(2))), &hash), Ok(Some(account(2))));
    assert_eq!(finished_game_winner(&board(2, BoardState::Finished(account(1))), &hash), Ok(Some(account(1))));
    assert_eq!(finished_game_winner(&board(1, BoardState::Running), &hash), Ok(None));
    assert_eq!(finished_game_winner(&board(0, BoardState::Idle), &hash), Ok(None));
    assert_eq!(
        finished_game_winner(&board(3, BoardState::Finished(account(1))), &hash),
        Err(ConsensusError::BadSidechainBlock(
            hash,
            "Unknown player, could not get the Winner.".to_string()
        ))
    );
}

#[test]
fn finish_game_call_encodes_index_shard_and_winner() {
    let call = finish_game_call([1, 2], &[3; 32], &account(4));
    assert_eq!(call.bytes.len(), 66);
    assert_eq!(&call.bytes[..2], &[1, 2]);
    assert_eq!(&call.bytes[2..34], &[3; 32]);
    assert_eq!(&call.bytes[34..], &account(4));
}

#[test]
fn sidechain_importer_keeps_its_components() {
    let importer = BlockImporter::new(
        Arc::new(1u8),
        7u32,
        account(5),
        Arc::new(2u8),
        Arc::new(3u8),
        Arc::new(4u8),
        Arc::new(5u8),
        Arc::new(6u8),
    );
    assert_eq!(importer.state_key(), 7);
    assert_eq!(**importer.get_context(), 4);
    assert_eq!(*importer.authority(), account(5));
    assert_eq!(**importer.state_handler(), 1);
    assert_eq!(**importer.top_pool_executor(), 2);
    assert_eq!(**importer.parentchain_block_importer(), 3);
    assert_eq!(**importer.extrinsics_factory(), 5);
    assert_eq!(**importer.validator_accessor(), 6);
}
