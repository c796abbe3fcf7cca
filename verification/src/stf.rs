//! The trusted calls and getters of the state transition function that the game logic and
//! the client send to the worker, held as plain values.
use vstd::prelude::*;

verus! {

/// A 32-byte account identifier (the public key of the account).
pub type AccountId = [u8; 32];

/// Identifies a shard of the worker's state.
pub type ShardIdentifier = [u8; 32];

/// Identifies a board of the board-game pallet.
pub type BoardId = u32;

/// Identifies a game in the runner pallet.
pub type GameId = u32;

/// A side of the board, from which a stone is dropped.
#[derive(Clone, Copy, Debug, PartialEq, Eq)]
pub enum Side {
    North,
    East,
    South,
    West,
}

/// A cell of the board.
#[derive(Clone, Copy, Debug, PartialEq, Eq)]
pub struct Coordinates {
    pub col: u8,
    pub row: u8,
}

/// A move in the board game.
#[derive(Clone, Copy, Debug, PartialEq, Eq)]
pub enum SgxGameTurn {
    /// Places a bomb on a cell.
    DropBomb(Coordinates),
    /// Drops a stone from a side, into the given lane.
    DropStone((Side, u8)),
}

/// A call that changes the trusted state.
#[derive(Clone, Debug, PartialEq, Eq)]
pub enum TrustedCall {
    /// A player makes a move on their board.
    BoardPlayTurn(AccountId, SgxGameTurn),
    /// A player disputes the outcome of a board.
    BoardDisputeGame(AccountId, BoardId),
    /// A player drops a stone into a column of a connect-four board.
    ConnectfourPlayTurn(AccountId, u8),
    /// The root account opens a board for a game and its players, ordered and without
    /// repetition.
    BoardNewGame(AccountId, GameId, Vec<AccountId>),
    /// The root account closes the board of a game.
    BoardFinishGame(AccountId, GameId),
}

/// A query of the trusted state.
#[derive(Clone, Copy, Debug, PartialEq, Eq)]
pub enum TrustedGetter {
    /// The board on which the account plays.
    Board(AccountId),
}

/// An encoded parentchain call, ready to be wrapped in an extrinsic.
#[derive(Clone, Debug, PartialEq, Eq)]
pub struct OpaqueCall {
    pub bytes: Vec<u8>,
}

} // verus!
