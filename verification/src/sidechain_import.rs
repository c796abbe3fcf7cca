//! The decisions of the sidechain block importer: which parentchain header a sidechain block
//! builds on, which trusted operations leave the pool once a block of this worker is
//! imported, and which finished games are reported to the parentchain, with which winner.
use vstd::prelude::*;
use crate::bytes::{append_bytes, bytes_eq};
use crate::stf::{AccountId, OpaqueCall, ShardIdentifier, TrustedCall};
use std::sync::Arc;

verus! {

/// A 32-byte block or operation hash.
pub type H256 = [u8; 32];

/// What the importer reads of a parentchain header: its hash and number.
#[derive(Clone, Copy, Debug, PartialEq, Eq)]
pub struct ParentchainHeader {
    pub hash: H256,
    pub number: u32,
}

/// What the importer reads of a sidechain block.
#[derive(Clone, Debug, PartialEq, Eq)]
pub struct SidechainBlock {
    /// The hash of the parentchain block that this block builds on.
    pub layer_one_head: H256,
    pub block_number: u64,
    pub hash: H256,
    /// The public key of the block's author.
    pub block_author: AccountId,
    /// The hashes of the trusted operations that the block applied.
    pub signed_top_hashes: Vec<H256>,
    pub shard_id: ShardIdentifier,
}

/// Why importing a sidechain block failed.
#[derive(Clone, Debug, PartialEq, Eq)]
pub enum ConsensusError {
    /// The block is unusable: its hash and the reason.
    BadSidechainBlock(H256, String),
    /// No header in the import queue has the hash that the sidechain block builds on. Holds
    /// that hash, and the number and hash of the sidechain block.
    MissingParentchainHeader(H256, u64, H256),
    /// Another component failed, with its message.
    Other(String),
}

/// How a trusted operation ended.
#[derive(Clone, Copy, Debug, PartialEq, Eq)]
pub enum ExecutionStatus {
    Success,
    Failure,
}

/// A trusted operation, or its hash.
#[derive(Clone, Debug, PartialEq, Eq)]
pub enum TrustedOperationOrHash {
    Hash(H256),
    OperationEncoded(Vec<u8>),
}

/// A trusted operation that a block applied.
#[derive(Clone, Debug, PartialEq, Eq)]
pub struct ExecutedOperation {
    pub status: ExecutionStatus,
    pub trusted_operation_or_hash: TrustedOperationOrHash,
    pub extrinsic_hashes: Vec<H256>,
}

/// The state of a connect-four board.
#[derive(Clone, Copy, Debug, PartialEq, Eq)]
pub enum BoardState {
    /// No game on the board yet.
    Idle,
    Running,
    /// The game has ended, won by the account.
    Finished(AccountId),
}

/// A connect-four board of two players: red moves first, then blue.
#[derive(Clone, Copy, Debug, PartialEq, Eq)]
pub struct SgxBoardStruct {
    pub red: AccountId,
    pub blue: AccountId,
    /// The cells, by column then row: 0 when empty, else the player (1 red, 2 blue).
    pub board: [[u8; 6]; 7],
    pub last_turn: u32,
    /// The player whose turn it is: 1 red, 2 blue.
    pub next_player: u8,
    pub board_state: BoardState,
}

/// The header that a sidechain block builds on: the last imported one if the block refers
/// to it, otherwise the first header in the import queue with the referenced hash.
pub open spec fn peeked_header_spec(
    layer_one_head: H256,
    last_imported: ParentchainHeader,
    queue: Seq<ParentchainHeader>,
) -> Option<ParentchainHeader> {
    if last_imported.hash@ == layer_one_head@ {
        Some(last_imported)
    } else {
        let hashes = Seq::new(queue.len(), |i: int| queue[i].hash@);
        match hashes.index_of_first(layer_one_head@) {
            Some(i) => Some(queue[i]),
            None => None,
        }
    }
}

/// Finds the parentchain header that `block` builds on, without importing it: the last
/// imported header when the block refers to it, else the first header with the referenced
/// hash among those waiting in the import queue (`queue`).
pub fn peek_parentchain_header(
    block: &SidechainBlock,
    last_imported: &ParentchainHeader,
    queue: &Vec<ParentchainHeader>,
) -> (r: Result<ParentchainHeader, ConsensusError>)
    ensures
        match peeked_header_spec(block.layer_one_head, *last_imported, queue@) {
            Some(h) => r == Ok::<ParentchainHeader, ConsensusError>(h),
            None => r == Err::<ParentchainHeader, ConsensusError>(
                ConsensusError::MissingParentchainHeader(block.layer_one_head, block.block_number, block.hash),
            ),
        },
{
    if bytes_eq(block.layer_one_head.as_slice(), last_imported.hash.as_slice()) {
        return Ok(*last_imported);
    }
    let ghost hashes = Seq::new(queue@.len(), |i: int| queue@[i].hash@);
    proof {
        hashes.index_of_first_ensures(block.layer_one_head@);
    }
    let n: usize = queue.len();
    let mut i: usize = 0;
    while i < n
        invariant
            n == queue@.len(),
            i <= n,
            hashes == Seq::new(queue@.len(), |i: int| queue@[i].hash@),
            last_imported.hash@ != block.layer_one_head@,
            forall|j: int| 0 <= j < i ==> hashes[j] != block.layer_one_head@,
            match hashes.index_of_first(block.layer_one_head@) {
                Some(index) => {
                    &&& 0 <= index < hashes.len()
                    &&& hashes[index] == block.layer_one_head@
                    &&& forall|j: int| 0 <= j < index < hashes.len() ==> hashes[j] != block.layer_one_head@
                },
                None => !hashes.contains(block.layer_one_head@),
            },
        decreases n - i,
    {
        if bytes_eq(queue[i].hash.as_slice(), block.layer_one_head.as_slice()) {
            assert(hashes[i as int] == block.layer_one_head@);
            return Ok(queue[i]);
        }
        i = i + 1;
    }
    proof {
        if hashes.contains(block.layer_one_head@) {
            let k = choose|k: int| 0 <= k < hashes.len() && hashes[k] == block.layer_one_head@;
            assert(hashes[k] != block.layer_one_head@);
        }
    }
    Err(ConsensusError::MissingParentchainHeader(block.layer_one_head, block.block_number, block.hash))
}

/// A sidechain block is only ever matched with the parentchain header it refers to, and it is
/// matched whenever that header is the last imported one or waits in the import queue.
pub proof fn lemma_peeked_header_is_referenced(
    layer_one_head: H256,
    last_imported: ParentchainHeader,
    queue: Seq<ParentchainHeader>,
)
    ensures
        peeked_header_spec(layer_one_head, last_imported, queue) matches Some(h) ==> h.hash@
            == layer_one_head@,
        (last_imported.hash@ == layer_one_head@ || exists|i: int|
            0 <= i < queue.len() && #[trigger] queue[i].hash@ == layer_one_head@) ==> peeked_header_spec(
            layer_one_head,
            last_imported,
            queue,
        ) is Some,
{
    let hashes = Seq::new(queue.len(), |i: int| queue[i].hash@);
    hashes.index_of_first_ensures(layer_one_head@);
    if last_imported.hash@ != layer_one_head@ {
        if exists|i: int| 0 <= i < queue.len() && #[trigger] queue[i].hash@ == layer_one_head@ {
            let i = choose|i: int| 0 <= i < queue.len() && #[trigger] queue[i].hash@ == layer_one_head@;
            assert(hashes[i] == layer_one_head@);
            assert(hashes.contains(layer_one_head@));
        }
    }
}

/// The header that the worker's parentchain state is at after importing the blocks that a
/// sidechain block refers to: the last block imported now, or, when none was, the header
/// imported before.
pub fn latest_parentchain_header(
    latest_imported: Option<ParentchainHeader>,
    last_imported: &ParentchainHeader,
) -> (h: ParentchainHeader)
    ensures
        h == match latest_imported {
            Some(l) => l,
            None => *last_imported,
        },
{
    match latest_imported {
        Some(l) => l,
        None => *last_imported,
    }
}

/// Whether this worker, with the public key `authority`, authored a block by `block_author`.
pub fn block_author_is_self(authority: &AccountId, block_author: &AccountId) -> (is_self: bool)
    ensures
        is_self == (authority@ == block_author@),
{
    bytes_eq(authority.as_slice(), block_author.as_slice())
}

/// Whether `op` records a successful operation with hash `hash` and no extrinsics.
pub open spec fn is_success_for(op: ExecutedOperation, hash: H256) -> bool {
    &&& op.status == ExecutionStatus::Success
    &&& op.trusted_operation_or_hash == TrustedOperationOrHash::Hash(hash)
    &&& op.extrinsic_hashes@.len() == 0
}

/// The operations of a block, as applied: a block holds only successful operations, so each
/// hash becomes a successful operation known by that hash.
pub fn executed_operations(signed_top_hashes: &Vec<H256>) -> (ops: Vec<ExecutedOperation>)
    ensures
        ops@.len() == signed_top_hashes@.len(),
        forall|i: int| 0 <= i < ops@.len() ==> is_success_for(#[trigger] ops@[i], signed_top_hashes@[i]),
{
    let mut ops: Vec<ExecutedOperation> = Vec::new();
    let n: usize = signed_top_hashes.len();
    let mut i: usize = 0;
    while i < n
        invariant
            n == signed_top_hashes@.len(),
            i <= n,
            ops@.len() == i,
            forall|j: int| 0 <= j < i ==> is_success_for(#[trigger] ops@[j], signed_top_hashes@[j]),
        decreases n - i,
    {
        let hash = signed_top_hashes[i];
        ops.push(ExecutedOperation {
            status: ExecutionStatus::Success,
            trusted_operation_or_hash: TrustedOperationOrHash::Hash(hash),
            extrinsic_hashes: Vec::new(),
        });
        i = i + 1;
    }
    ops
}

/// After a block is imported, the operations to remove from the pool of its shard: all
/// those it applied, when this worker (public key `authority`) authored it; none otherwise.
pub fn operations_to_remove(block: &SidechainBlock, authority: &AccountId) -> (r: Option<
    (ShardIdentifier, Vec<ExecutedOperation>),
>)
    ensures
        authority@ != block.block_author@ ==> r is None,
        authority@ == block.block_author@ ==> (r matches Some((shard, ops)) && shard == block.shard_id
            && ops@.len() == block.signed_top_hashes@.len() && forall|i: int|
            0 <= i < ops@.len() ==> is_success_for(#[trigger] ops@[i], block.signed_top_hashes@[i])),
{
    if block_author_is_self(authority, &block.block_author) {
        Some((block.shard_id, executed_operations(&block.signed_top_hashes)))
    } else {
        None
    }
}

/// The accounts that made a connect-four move in `calls`, in order.
pub open spec fn play_turn_accounts_spec(calls: Seq<TrustedCall>) -> Seq<AccountId>
    decreases calls.len(),
{
    if calls.len() == 0 {
        Seq::empty()
    } else {
        let rest = play_turn_accounts_spec(calls.drop_last());
        match calls.last() {
            TrustedCall::ConnectfourPlayTurn(account, _) => rest.push(account),
            _ => rest,
        }
    }
}

/// Whether `call` is a connect-four move, by any account into any column.
pub open spec fn is_connectfour_move(call: TrustedCall) -> bool {
    call is ConnectfourPlayTurn
}

/// How many connect-four moves `calls` holds.
pub open spec fn connectfour_move_count(calls: Seq<TrustedCall>) -> nat {
    calls.filter(connectfour_moves()).len()
}

/// The test for a connect-four move, as a predicate.
pub open spec fn connectfour_moves() -> spec_fn(TrustedCall) -> bool {
    |c: TrustedCall| is_connectfour_move(c)
}

/// Every connect-four move in the pool has its account checked, whatever the column it went
/// into; nothing else is checked; and there are as many accounts as moves.
pub proof fn lemma_play_turn_accounts_are_the_movers(calls: Seq<TrustedCall>)
    ensures
        forall|i: int, account: AccountId, column: u8|
            0 <= i < calls.len() && calls[i] == TrustedCall::ConnectfourPlayTurn(account, column)
                ==> play_turn_accounts_spec(calls).contains(account),
        forall|account: AccountId|
            play_turn_accounts_spec(calls).contains(account) ==> exists|i: int, column: u8|
                0 <= i < calls.len() && calls[i] == TrustedCall::ConnectfourPlayTurn(account, column),
        play_turn_accounts_spec(calls).len() == connectfour_move_count(calls),
    decreases calls.len(),
{
    if calls.len() > 0 {
        let init = calls.drop_last();
        lemma_play_turn_accounts_are_the_movers(init);
        assert(calls =~= init.push(calls.last()));
        let rest = play_turn_accounts_spec(init);
        let res = play_turn_accounts_spec(calls);
        assert(calls.drop_last() == init);
        init.lemma_filter_len_push(connectfour_moves(), calls.last());
        assert forall|i: int, account: AccountId, column: u8|
            0 <= i < calls.len() && calls[i] == TrustedCall::ConnectfourPlayTurn(account, column)
                implies res.contains(account) by {
            if i < calls.len() - 1 {
                assert(init[i] == calls[i]);
                let k = choose|k: int| 0 <= k < rest.len() && rest[k] == account;
                assert(res[k] == account);
            } else {
                assert(res[res.len() - 1] == account);
            }
        }
        assert forall|account: AccountId| res.contains(account) implies exists|i: int, column: u8|
            0 <= i < calls.len() && calls[i] == TrustedCall::ConnectfourPlayTurn(account, column) by {
            let k = choose|k: int| 0 <= k < res.len() && res[k] == account;
            if k < rest.len() {
                assert(rest[k] == account);
                assert(rest.contains(account));
                let (i, column) = choose|i: int, column: u8|
                    0 <= i < init.len() && init[i] == TrustedCall::ConnectfourPlayTurn(account, column);
                assert(calls[i] == init[i]);
            } else {
                match calls.last() {
                    TrustedCall::ConnectfourPlayTurn(a, column) => {
                        assert(calls[calls.len() - 1] == TrustedCall::ConnectfourPlayTurn(account, column));
                    },
                    _ => {},
                }
            }
        }
    } else {
        reveal_with_fuel(Seq::<TrustedCall>::filter, 1);
        assert(calls.filter(connectfour_moves()) =~= Seq::<TrustedCall>::empty());
    }
}

/// The accounts whose boards may have finished: those that made a connect-four move in the
/// pool's calls, in order.
pub fn play_turn_accounts(calls: &Vec<TrustedCall>) -> (accounts: Vec<AccountId>)
    ensures
        accounts@ == play_turn_accounts_spec(calls@),
{
    let mut accounts: Vec<AccountId> = Vec::new();
    let n: usize = calls.len();
    let mut i: usize = 0;
    while i < n
        invariant
            n == calls@.len(),
            i <= n,
            accounts@ == play_turn_accounts_spec(calls@.subrange(0, i as int)),
        decreases n - i,
    {
        assert(calls@.subrange(0, i + 1).drop_last() == calls@.subrange(0, i as int));
        match &calls[i] {
            TrustedCall::ConnectfourPlayTurn(account, _) => {
                accounts.push(*account);
            },
            _ => {},
        }
        i = i + 1;
    }
    assert(calls@.subrange(0, n as int) == calls@);
    accounts
}

/// The winner of a finished game: not the player whose turn it would be next.
pub open spec fn winner_spec(board: SgxBoardStruct) -> Option<AccountId> {
    if board.next_player == 1 {
        Some(board.blue)
    } else if board.next_player == 2 {
        Some(board.red)
    } else {
        None
    }
}

/// Whether a board's game has ended.
pub open spec fn is_finished(board: SgxBoardStruct) -> bool {
    board.board_state is Finished
}

/// The winner to report for a board: none while its game runs; for a finished game the
/// player who is not next to move (blue when red is next, red when blue is next). A finished
/// board whose next player is neither makes the sidechain block `block_hash` unusable.
pub fn finished_game_winner(board: &SgxBoardStruct, block_hash: &H256) -> (r: Result<
    Option<AccountId>,
    ConsensusError,
>)
    ensures
        !is_finished(*board) ==> r == Ok::<Option<AccountId>, ConsensusError>(None),
        is_finished(*board) && winner_spec(*board) is Some ==> r == Ok::<
            Option<AccountId>,
            ConsensusError,
        >(winner_spec(*board)),
        is_finished(*board) && winner_spec(*board) is None ==> (r matches Err(
            ConsensusError::BadSidechainBlock(h, msg),
        ) && h == *block_hash && msg@ == "Unknown player, could not get the Winner."@),
{
    match board.board_state {
        BoardState::Finished(_) => {
            if board.next_player == 1 {
                Ok(Some(board.blue))
            } else if board.next_player == 2 {
                Ok(Some(board.red))
            } else {
                Err(
                    ConsensusError::BadSidechainBlock(
                        *block_hash,
                        String::from_str("Unknown player, could not get the Winner."),
                    ),
                )
            }
        },
        _ => Ok(None),
    }
}

/// The encoded call that reports to the game registry that the game of shard `shard` was won
/// by `winner`: the call's index, the shard, then the winner.
pub open spec fn finish_game_call_bytes(call_index: Seq<u8>, shard: Seq<u8>, winner: Seq<u8>) -> Seq<u8> {
    call_index + shard + winner
}

/// The call that reports the winner of the game of a shard.
pub fn finish_game_call(call_index: [u8; 2], shard: &ShardIdentifier, winner: &AccountId) -> (call:
    OpaqueCall)
    ensures
        call.bytes@ == finish_game_call_bytes(call_index@, shard@, winner@),
{
    let mut bytes: Vec<u8> = Vec::new();
    append_bytes(&mut bytes, call_index.as_slice());
    append_bytes(&mut bytes, shard.as_slice());
    append_bytes(&mut bytes, winner.as_slice());
    OpaqueCall { bytes }
}

/// Imports sidechain blocks: it holds the worker's state handler and state key, its signing
/// authority, the pool of trusted operations, the parentchain block importer, the on-chain
/// API, the extrinsics factory and the light-client validator.
pub struct BlockImporter<Authority, OCallApi, StateHandler, StateKey, TopPoolExecutor, ParentchainImporter, ExtrinsicsFactory, ValidatorAccessor> {
    state_handler: Arc<StateHandler>,
    state_key: StateKey,
    authority: Authority,
    top_pool_executor: Arc<TopPoolExecutor>,
    parentchain_block_importer: Arc<ParentchainImporter>,
    ocall_api: Arc<OCallApi>,
    extrinsics_factory: Arc<ExtrinsicsFactory>,
    validator_accessor: Arc<ValidatorAccessor>,
}

impl<A, O, S, K: Copy, T, P, E, V> BlockImporter<A, O, S, K, T, P, E, V> {
    pub closed spec fn spec_state_handler(&self) -> Arc<S> {
        self.state_handler
    }

    pub closed spec fn spec_state_key(&self) -> K {
        self.state_key
    }

    pub closed spec fn spec_authority(&self) -> A {
        self.authority
    }

    pub closed spec fn spec_top_pool_executor(&self) -> Arc<T> {
        self.top_pool_executor
    }

    pub closed spec fn spec_parentchain_block_importer(&self) -> Arc<P> {
        self.parentchain_block_importer
    }

    pub closed spec fn spec_ocall_api(&self) -> Arc<O> {
        self.ocall_api
    }

    pub closed spec fn spec_extrinsics_factory(&self) -> Arc<E> {
        self.extrinsics_factory
    }

    pub closed spec fn spec_validator_accessor(&self) -> Arc<V> {
        self.validator_accessor
    }

    /// An importer over the given components.
    pub fn new(
        state_handler: Arc<S>,
        state_key: K,
        authority: A,
        top_pool_executor: Arc<T>,
        parentchain_block_importer: Arc<P>,
        ocall_api: Arc<O>,
        extrinsics_factory: Arc<E>,
        validator_accessor: Arc<V>,
    ) -> (importer: Self)
        ensures
            importer.spec_state_handler() == state_handler,
            importer.spec_state_key() == state_key,
            importer.spec_authority() == authority,
            importer.spec_top_pool_executor() == top_pool_executor,
            importer.spec_parentchain_block_importer() == parentchain_block_importer,
            importer.spec_ocall_api() == ocall_api,
            importer.spec_extrinsics_factory() == extrinsics_factory,
            importer.spec_validator_accessor() == validator_accessor,
    {
        BlockImporter {
            state_handler,
            state_key,
            authority,
            top_pool_executor,
            parentchain_block_importer,
            ocall_api,
            extrinsics_factory,
            validator_accessor,
        }
    }

    /// The key with which the state is encrypted.
    pub fn state_key(&self) -> (k: K)
        ensures
            k == self.spec_state_key(),
    {
        self.state_key
    }

    /// The context of block verification: the on-chain API.
    pub fn get_context(&self) -> (c: &Arc<O>)
        ensures
            *c == self.spec_ocall_api(),
    {
        &self.ocall_api
    }

    /// The worker's signing authority.
    pub fn authority(&self) -> (a: &A)
        ensures
            *a == self.spec_authority(),
    {
        &self.authority
    }

    /// The state handler.
    pub fn state_handler(&self) -> (s: &Arc<S>)
        ensures
            *s == self.spec_state_handler(),
    {
        &self.state_handler
    }

    /// The pool of trusted operations.
    pub fn top_pool_executor(&self) -> (t: &Arc<T>)
        ensures
            *t == self.spec_top_pool_executor(),
    {
        &self.top_pool_executor
    }

    /// The parentchain block importer.
    pub fn parentchain_block_importer(&self) -> (p: &Arc<P>)
        ensures
            *p == self.spec_parentchain_block_importer(),
    {
        &self.parentchain_block_importer
    }

    /// The extrinsics factory.
    pub fn extrinsics_factory(&self) -> (e: &Arc<E>)
        ensures
            *e == self.spec_extrinsics_factory(),
    {
        &self.extrinsics_factory
    }

    /// The light-client validator.
    pub fn validator_accessor(&self) -> (v: &Arc<V>)
        ensures
            *v == self.spec_validator_accessor(),
    {
        &self.validator_accessor
    }
}

} // verus!
