//! Importing parentchain blocks. For each imported block the worker gathers the calls to send
//! back to the parentchain: the result of the block's indirect calls, and, when players wait
//! in the game registry's queue, a call that acknowledges their games.
use vstd::prelude::*;
use crate::bytes::{append_bytes, compact_u32_bytes, encode_u32_vec, u32_seq_bytes};
use crate::stf::{GameId, OpaqueCall, ShardIdentifier};
use std::sync::Arc;

verus! {

/// What the worker learnt from one imported block.
#[derive(Clone, Debug, PartialEq, Eq)]
pub struct ImportedBlock {
    /// The call that executing the block's indirect calls produced; `None` when that failed.
    pub indirect_calls: Option<OpaqueCall>,
    /// The games queued in the game registry as of this block, if the entry exists.
    pub queued_games: Option<Vec<GameId>>,
}

/// The encoded call that acknowledges the queued games `queued` for the shard `shard`: the
/// call's index, the games as a SCALE vector, then the shard.
pub open spec fn ack_game_call_bytes(call_index: Seq<u8>, queued: Seq<GameId>, shard: Seq<u8>) -> Seq<u8> {
    call_index + compact_u32_bytes(queued.len() as u32) + u32_seq_bytes(queued) + shard
}

/// Whether a block leaves games to acknowledge.
pub open spec fn has_queued_games(block: ImportedBlock) -> bool {
    block.queued_games matches Some(q) && q@.len() > 0
}

/// The calls that one imported block contributes, in order.
pub open spec fn block_calls(block: ImportedBlock, call_index: Seq<u8>, shard: Seq<u8>) -> Seq<Seq<u8>> {
    let indirect = match block.indirect_calls {
        Some(c) => seq![c.bytes@],
        None => Seq::empty(),
    };
    let ack = match block.queued_games {
        Some(q) => if q@.len() > 0 {
            seq![ack_game_call_bytes(call_index, q@, shard)]
        } else {
            Seq::empty()
        },
        None => Seq::empty(),
    };
    indirect + ack
}

/// An imported block gives rise to at most two calls: its indirect-call result when there is
/// one, and an acknowledgement exactly when games are queued, after the former.
pub proof fn lemma_block_calls_shape(block: ImportedBlock, call_index: Seq<u8>, shard: Seq<u8>)
    ensures
        block_calls(block, call_index, shard).len() == (if block.indirect_calls is Some {
            1int
        } else {
            0int
        }) + (if has_queued_games(block) {
            1int
        } else {
            0int
        }),
        block.indirect_calls matches Some(c) ==> block_calls(block, call_index, shard)[0] == c.bytes@,
        has_queued_games(block) ==> block_calls(block, call_index, shard).last()
            == ack_game_call_bytes(call_index, block.queued_games.unwrap()@, shard),
{
}

/// The bytes of each call of `calls`.
pub open spec fn calls_bytes(calls: Seq<OpaqueCall>) -> Seq<Seq<u8>> {
    Seq::new(calls.len(), |i: int| calls[i].bytes@)
}

/// The call that acknowledges the queued games `queued` for the shard `shard`.
pub fn ack_game_call(call_index: [u8; 2], queued: &Vec<GameId>, shard: &ShardIdentifier) -> (call:
    OpaqueCall)
    requires
        queued@.len() <= u32::MAX,
    ensures
        call.bytes@ == ack_game_call_bytes(call_index@, queued@, shard@),
{
    let mut bytes: Vec<u8> = Vec::new();
    append_bytes(&mut bytes, call_index.as_slice());
    let games = encode_u32_vec(queued);
    append_bytes(&mut bytes, games.as_slice());
    append_bytes(&mut bytes, shard.as_slice());
    OpaqueCall { bytes }
}

/// Adds to `calls` what the imported block `block` contributes: its indirect-call result, if
/// any, then the acknowledgement of the games queued as of the block, if any are. The games
/// are acknowledged for the first shard of `shards`.
pub fn collect_block_calls(
    calls: &mut Vec<OpaqueCall>,
    block: &ImportedBlock,
    ack_game_index: [u8; 2],
    shards: &Vec<ShardIdentifier>,
)
    requires
        has_queued_games(*block) ==> shards@.len() > 0,
        block.queued_games matches Some(q) ==> q@.len() <= u32::MAX,
    ensures
        calls_bytes(final(calls)@) == calls_bytes(old(calls)@) + block_calls(
            *block,
            ack_game_index@,
            if has_queued_games(*block) { shards@[0]@ } else { Seq::empty() },
        ),
{
    let ghost before = calls_bytes(calls@);
    match &block.indirect_calls {
        Some(c) => {
            calls.push(OpaqueCall { bytes: c.bytes.clone() });
        },
        None => {},
    }
    let ghost middle = calls_bytes(calls@);
    assert(middle =~= before + match block.indirect_calls {
        Some(c) => seq![c.bytes@],
        None => Seq::<Seq<u8>>::empty(),
    });
    match &block.queued_games {
        Some(queued) => {
            if queued.len() > 0 {
                let call = ack_game_call(ack_game_index, queued, &shards[0]);
                calls.push(call);
            }
        },
        None => {},
    }
    assert(calls_bytes(calls@) =~= calls_bytes(old(calls)@) + block_calls(
        *block,
        ack_game_index@,
        if has_queued_games(*block) { shards@[0]@ } else { Seq::empty() },
    ));
}

/// Imports parentchain blocks: it submits them to the light-client validator, updates the
/// trusted state, executes their indirect calls, and sends the gathered calls back.
pub struct ParentchainBlockImporter<ValidatorAccessor, StfExecutor, ExtrinsicsFactory, IndirectCallsExecutor, StateHandler> {
    validator_accessor: Arc<ValidatorAccessor>,
    stf_executor: Arc<StfExecutor>,
    extrinsics_factory: Arc<ExtrinsicsFactory>,
    indirect_calls_executor: Arc<IndirectCallsExecutor>,
    file_state_handler: Arc<StateHandler>,
}

impl<V, S, E, I, H> ParentchainBlockImporter<V, S, E, I, H> {
    pub closed spec fn spec_validator_accessor(&self) -> Arc<V> {
        self.validator_accessor
    }

    pub closed spec fn spec_stf_executor(&self) -> Arc<S> {
        self.stf_executor
    }

    pub closed spec fn spec_extrinsics_factory(&self) -> Arc<E> {
        self.extrinsics_factory
    }

    pub closed spec fn spec_indirect_calls_executor(&self) -> Arc<I> {
        self.indirect_calls_executor
    }

    pub closed spec fn spec_file_state_handler(&self) -> Arc<H> {
        self.file_state_handler
    }

    /// An importer over the given components.
    pub fn new(
        validator_accessor: Arc<V>,
        stf_executor: Arc<S>,
        extrinsics_factory: Arc<E>,
        indirect_calls_executor: Arc<I>,
        file_state_handler: Arc<H>,
    ) -> (importer: Self)
        ensures
            importer.spec_validator_accessor() == validator_accessor,
            importer.spec_stf_executor() == stf_executor,
            importer.spec_extrinsics_factory() == extrinsics_factory,
            importer.spec_indirect_calls_executor() == indirect_calls_executor,
            importer.spec_file_state_handler() == file_state_handler,
    {
        ParentchainBlockImporter {
            validator_accessor,
            stf_executor,
            extrinsics_factory,
            indirect_calls_executor,
            file_state_handler,
        }
    }

    /// The light-client validator.
    pub fn validator_accessor(&self) -> (v: &Arc<V>)
        ensures
            *v == self.spec_validator_accessor(),
    {
        &self.validator_accessor
    }

    /// The executor of state updates.
    pub fn stf_executor(&self) -> (s: &Arc<S>)
        ensures
            *s == self.spec_stf_executor(),
    {
        &self.stf_executor
    }

    /// The factory of parentchain extrinsics.
    pub fn extrinsics_factory(&self) -> (e: &Arc<E>)
        ensures
            *e == self.spec_extrinsics_factory(),
    {
        &self.extrinsics_factory
    }

    /// The executor of indirect calls.
    pub fn indirect_calls_executor(&self) -> (i: &Arc<I>)
        ensures
            *i == self.spec_indirect_calls_executor(),
    {
        &self.indirect_calls_executor
    }

    /// The handler that lists the shards.
    pub fn file_state_handler(&self) -> (h: &Arc<H>)
        ensures
            *h == self.spec_file_state_handler(),
    {
        &self.file_state_handler
    }
}

} // verus!
