//! The two wire message families and the closed set of request failures.

use vstd::prelude::*;

use crate::board::Board;
use crate::ids::Position;

verus! {

/// Why a participant's request failed. The coordinator reports exactly one of
/// these to the offending connection; rendering human-readable text is left
/// to the boundary around the library.
#[derive(Clone, Copy, Debug, PartialEq, Eq, Structural)]
pub enum GameError {
    /// A third join attempt while both slots are occupied.
    MatchFull,
    /// A message arrived before both sides had joined.
    MatchNotReady,
    /// A message from a connection that occupies neither slot.
    NotAParticipant,
    /// A move after the grid reached a terminal outcome.
    GameNotInProgress,
    /// A move by the side whose turn it is not.
    NotYourTurn,
    /// A move onto a cell that is already played.
    TileOccupied,
    /// Malformed or truncated inbound bytes.
    DecodeError,
    /// A transport-level send or receive failure, reported by the boundary.
    ConnectionError,
}

/// A full state snapshot for one recipient: the grid and whether it is that
/// recipient's turn.
#[derive(Clone, Copy, Debug, PartialEq, Eq, Structural)]
pub struct GameUpdate {
    pub board: Board,
    pub turn: bool,
}

/// Coordinator-to-participant messages.
#[derive(Clone, Copy, Debug, PartialEq, Eq, Structural)]
pub enum ServerMessage {
    Error(GameError),
    WaitingForOpponentYouAreCrosses,
    GameUpdate(GameUpdate),
    OppositionRequestsRematch,
    GameEnded,
}

/// Participant-to-coordinator messages.
#[derive(Clone, Copy, Debug, PartialEq, Eq, Structural)]
pub enum ClientMessage {
    Move(Position),
    RequestRematch,
}

impl ClientMessage {
    /// A constructible inbound message carries an in-range position.
    pub open spec fn wf(&self) -> bool {
        match *self {
            ClientMessage::Move(p) => p.wf(),
            ClientMessage::RequestRematch => true,
        }
    }
}

/// A notification addressed to one connection.
#[derive(Clone, Copy, Debug, PartialEq, Eq, Structural)]
pub struct Directed {
    pub to: u64,
    pub msg: ServerMessage,
}

} // verus!
