//! Opening and closing games in the trusted state. The executor reads the runner entry of a
//! game from the parentchain; when the game has been accepted and has two players, it opens a
//! board for them.
use vstd::prelude::*;
use std::sync::Arc;
use crate::bytes::{encode_u32, u32_le_bytes};
use crate::storage::{storage_map_key, storage_map_key_spec, StorageHasher};
use crate::stf::{AccountId, GameId, TrustedCall};
use crate::pallet_ajuna_runner::RUNNER;
use crate::metadata::{names_of, NodeMetadata};
use vstd::string::StringSliceAdditionalSpecFns;

verus! {

/// The state of a game in the runner pallet, with its encoded game data.
#[derive(Clone, Debug, PartialEq, Eq)]
pub enum RunnerState {
    Queued(Vec<u8>),
    Accepted(Vec<u8>),
    Finished(Vec<u8>),
}

/// What opening a game comes to, given its runner entry.
#[derive(Clone, Debug, PartialEq, Eq)]
pub enum NewGamePlan {
    /// The runner pallet has no entry for the game.
    NoGameEntry,
    /// The game is not in the accepted state.
    NotAccepted,
    /// The accepted game's data could not be decoded.
    DecodingFailed,
    /// The game does not have exactly two players; it holds the number it has.
    WrongPlayerCount(usize),
    /// A board is to be opened for these players, ordered and without repetition.
    Start(Vec<AccountId>),
}

/// Whether `a` comes before `b` in the byte-wise order of accounts.
pub open spec fn account_lt(a: Seq<u8>, b: Seq<u8>) -> bool {
    exists|k: int|
        0 <= k < a.len() && k < b.len() && a[k] < b[k] && (forall|j: int| 0 <= j < k ==> a[j] == b[j])
}

/// The set of two players as the state transition function receives it: ordered, without
/// repetition.
pub open spec fn player_set(p1: AccountId, p2: AccountId) -> Seq<AccountId> {
    if p1@ == p2@ {
        seq![p1]
    } else if account_lt(p1@, p2@) {
        seq![p1, p2]
    } else {
        seq![p2, p1]
    }
}

/// Whether `a` comes before `b` in the byte-wise order of accounts.
pub fn account_less_than(a: &AccountId, b: &AccountId) -> (lt: bool)
    ensures
        lt == account_lt(a@, b@),
{
    let mut i: usize = 0;
    while i < 32
        invariant
            i <= 32,
            a@.len() == 32,
            b@.len() == 32,
            forall|j: int| 0 <= j < i ==> a@[j] == b@[j],
        decreases 32 - i,
    {
        if a[i] != b[i] {
            let lt: bool = a[i] < b[i];
            proof {
                if !lt {
                    assert forall|k: int|
                        0 <= k < a@.len() && k < b@.len() && a@[k] < b@[k] implies exists|j: int|
                        0 <= j < k && a@[j] != b@[j] by {
                        if k == i {
                        } else if k < i {
                        } else {
                            assert(a@[i as int] != b@[i as int]);
                        }
                    }
                } else {
                    assert(0 <= i < 32 && a@[i as int] < b@[i as int]);
                }
            }
            return lt;
        }
        i = i + 1;
    }
    false
}

/// Whether two accounts are the same.
pub fn account_eq(a: &AccountId, b: &AccountId) -> (eq: bool)
    ensures
        eq == (a@ == b@),
{
    crate::bytes::bytes_eq(a.as_slice(), b.as_slice())
}

/// The two players as an ordered set.
pub fn make_player_set(p1: AccountId, p2: AccountId) -> (set: Vec<AccountId>)
    ensures
        set@ == player_set(p1, p2),
{
    let mut set: Vec<AccountId> = Vec::new();
    if account_eq(&p1, &p2) {
        set.push(p1);
    } else if account_less_than(&p1, &p2) {
        set.push(p1);
        set.push(p2);
    } else {
        set.push(p2);
        set.push(p1);
    }
    set
}

/// Decides what opening a game comes to. `entry` is the game's runner entry, if any;
/// `players` the players decoded from the game data of an accepted entry (`None` when that
/// data could not be decoded; ignored for other entries).
pub fn plan_new_game(entry: &Option<RunnerState>, players: &Option<Vec<AccountId>>) -> (plan:
    NewGamePlan)
    ensures
        entry is None ==> plan == NewGamePlan::NoGameEntry,
        entry matches Some(s) && !(s is Accepted) ==> plan == NewGamePlan::NotAccepted,
        entry matches Some(s) && s is Accepted ==> match players {
            None => plan == NewGamePlan::DecodingFailed,
            Some(ps) => if ps@.len() == 2 {
                plan matches NewGamePlan::Start(set) && set@ == player_set(ps@[0], ps@[1])
            } else {
                plan == NewGamePlan::WrongPlayerCount(ps@.len() as usize)
            },
        },
{
    match entry {
        None => NewGamePlan::NoGameEntry,
        Some(RunnerState::Accepted(_)) => match players {
            None => NewGamePlan::DecodingFailed,
            Some(ps) => {
                if ps.len() == 2 {
                    NewGamePlan::Start(make_player_set(ps[0], ps[1]))
                } else {
                    NewGamePlan::WrongPlayerCount(ps.len())
                }
            },
        },
        Some(_) => NewGamePlan::NotAccepted,
    }
}

/// The key of a game's entry in the runner pallet's `Runners` map.
pub fn runner_storage_key(game_id: GameId) -> (key: Vec<u8>)
    ensures
        key@ == storage_map_key_spec(
            "Runner".spec_bytes(),
            "Runners".spec_bytes(),
            u32_le_bytes(game_id),
            StorageHasher::Blake2_128,
        ),
{
    let encoded = encode_u32(game_id);
    storage_map_key(RUNNER, "Runners", encoded.as_slice(), StorageHasher::Blake2_128)
}

/// When the node's metadata declares the runner map as hashed with Blake2-128, the key of a
/// game's runner entry that the metadata gives is the key that the executor builds itself.
pub proof fn lemma_runner_key_agrees_with_metadata(metadata: NodeMetadata, game_id: GameId)
    requires
        metadata.spec_pallet_position("Runner"@) matches Ok(i) && names_of(
            metadata.pallets_view().unwrap()[i].storage@,
        ).index_of_first("Runners"@) matches Some(j) && metadata.pallets_view().unwrap()[i].storage@[j].hasher
            == Some(StorageHasher::Blake2_128),
    ensures
        metadata.spec_storage_map_key("Runner", "Runners", u32_le_bytes(game_id)) == Ok::<
            Seq<u8>,
            crate::metadata::MetadataError,
        >(
            storage_map_key_spec(
                "Runner".spec_bytes(),
                "Runners".spec_bytes(),
                u32_le_bytes(game_id),
                StorageHasher::Blake2_128,
            ),
        ),
{
}

/// The call by which the root account opens a board for a game.
pub fn board_new_game_call(root: AccountId, game_id: GameId, players: Vec<AccountId>) -> (call:
    TrustedCall)
    ensures
        call == TrustedCall::BoardNewGame(root, game_id, players),
{
    TrustedCall::BoardNewGame(root, game_id, players)
}

/// The call by which the root account closes the board of a game.
pub fn board_finish_game_call(root: AccountId, game_id: GameId) -> (call: TrustedCall)
    ensures
        call == TrustedCall::BoardFinishGame(root, game_id),
{
    TrustedCall::BoardFinishGame(root, game_id)
}

proof fn lemma_first_difference(a: Seq<u8>, b: Seq<u8>, i: int)
    requires
        a.len() == b.len(),
        0 <= i <= a.len(),
        forall|j: int| 0 <= j < i ==> a[j] == b[j],
        a != b,
    ensures
        exists|k: int| i <= k < a.len() && a[k] != b[k] && (forall|j: int| 0 <= j < k ==> a[j] == b[j]),
    decreases a.len() - i,
{
    if i == a.len() {
        assert(a =~= b);
    } else if a[i] != b[i] {
    } else {
        lemma_first_difference(a, b, i + 1);
    }
}

/// The byte-wise order of accounts is total: of two different accounts, one comes first.
pub proof fn lemma_account_order_total(a: AccountId, b: AccountId)
    requires
        a@ != b@,
    ensures
        account_lt(a@, b@) || account_lt(b@, a@),
{
    lemma_first_difference(a@, b@, 0);
    let k = choose|k: int|
        0 <= k < a@.len() && a@[k] != b@[k] && (forall|j: int| 0 <= j < k ==> a@[j] == b@[j]);
    if a@[k] < b@[k] {
        assert(account_lt(a@, b@));
    } else {
        assert(account_lt(b@, a@));
    }
}

/// The players of a new game form an ordered set: both players are in it and nothing else,
/// its members are in strictly increasing order, and it has two members exactly when the
/// players differ.
pub proof fn lemma_player_set_is_ordered_set(p1: AccountId, p2: AccountId)
    ensures
        player_set(p1, p2).contains(p1),
        player_set(p1, p2).contains(p2),
        forall|a: AccountId| #[trigger] player_set(p1, p2).contains(a) ==> a == p1 || a == p2,
        player_set(p1, p2).len() == 2 <==> p1@ != p2@,
        player_set(p1, p2).len() == 2 ==> account_lt(player_set(p1, p2)[0]@, player_set(p1, p2)[1]@),
{
    let s = player_set(p1, p2);
    if p1@ == p2@ {
        assert(p1 == p2);
        assert(s[0] == p1);
    } else {
        lemma_account_order_total(p1, p2);
        if account_lt(p1@, p2@) {
            assert(s[0] == p1 && s[1] == p2);
        } else {
            assert(s[0] == p2 && s[1] == p1);
        }
    }
}

/// Opens and closes games in the trusted state of a shard. It holds the state handler,
/// through which the state is loaded and written, and the on-chain API, through which the
/// runner entries are read.
pub struct StfGameExecutor<OCallApi, StateHandler> {
    state_handler: Arc<StateHandler>,
    ocall_api: Arc<OCallApi>,
}

impl<OCallApi, StateHandler> StfGameExecutor<OCallApi, StateHandler> {
    /// The state handler.
    pub closed spec fn spec_state_handler(&self) -> Arc<StateHandler> {
        self.state_handler
    }

    /// The on-chain API.
    pub closed spec fn spec_ocall_api(&self) -> Arc<OCallApi> {
        self.ocall_api
    }

    /// An executor over the given state handler and on-chain API.
    pub fn new(state_handler: Arc<StateHandler>, ocall_api: Arc<OCallApi>) -> (executor: Self)
        ensures
            executor.spec_state_handler() == state_handler,
            executor.spec_ocall_api() == ocall_api,
    {
        Self { state_handler, ocall_api }
    }

    /// The state handler.
    pub fn state_handler(&self) -> (h: &Arc<StateHandler>)
        ensures
            *h == self.spec_state_handler(),
    {
        &self.state_handler
    }

    /// The on-chain API.
    pub fn ocall_api(&self) -> (a: &Arc<OCallApi>)
        ensures
            *a == self.spec_ocall_api(),
    {
        &self.ocall_api
    }
}

} // verus!
