//! The compact binary form of both message families: a one-byte variant
//! discriminator followed by the variant's fixed-size payload. Decoding is
//! strict: only the canonical encoding of a message is accepted, and anything
//! malformed or truncated fails with `DecodeError`.

use vstd::prelude::*;

use crate::board::{Board, Tile};
use crate::ids::Position;
use crate::messages::{ClientMessage, GameError, GameUpdate, ServerMessage};

verus! {

pub open spec fn spec_tile_byte(t: Tile) -> u8 {
    match t {
        Tile::Unplayed => 0u8,
        Tile::Nought => 1u8,
        Tile::Cross => 2u8,
    }
}

pub open spec fn spec_byte_tile(b: u8) -> Tile
    recommends
        b < 3,
{
    if b == 0 {
        Tile::Unplayed
    } else if b == 1 {
        Tile::Nought
    } else {
        Tile::Cross
    }
}

pub open spec fn spec_error_byte(e: GameError) -> u8 {
    match e {
        GameError::MatchFull => 0u8,
        GameError::MatchNotReady => 1u8,
        GameError::NotAParticipant => 2u8,
        GameError::GameNotInProgress => 3u8,
        GameError::NotYourTurn => 4u8,
        GameError::TileOccupied => 5u8,
        GameError::DecodeError => 6u8,
        GameError::ConnectionError => 7u8,
    }
}

pub open spec fn spec_byte_error(b: u8) -> GameError
    recommends
        b < 8,
{
    if b == 0 {
        GameError::MatchFull
    } else if b == 1 {
        GameError::MatchNotReady
    } else if b == 2 {
        GameError::NotAParticipant
    } else if b == 3 {
        GameError::GameNotInProgress
    } else if b == 4 {
        GameError::NotYourTurn
    } else if b == 5 {
        GameError::TileOccupied
    } else if b == 6 {
        GameError::DecodeError
    } else {
        GameError::ConnectionError
    }
}

/// The canonical bytes of an inbound message: `Move` is the discriminator 0
/// and the two coordinates; `RequestRematch` is the discriminator 1 alone.
pub open spec fn spec_encode_client(m: ClientMessage) -> Seq<u8> {
    match m {
        ClientMessage::Move(p) => seq![0u8, p.x, p.y],
        ClientMessage::RequestRematch => seq![1u8],
    }
}

pub open spec fn spec_decode_client(b: Seq<u8>) -> Result<ClientMessage, GameError> {
    if b.len() == 3 && b[0] == 0 && b[1] < 3 && b[2] < 3 {
        Ok(ClientMessage::Move(Position { x: b[1], y: b[2] }))
    } else if b.len() == 1 && b[0] == 1 {
        Ok(ClientMessage::RequestRematch)
    } else {
        Err(GameError::DecodeError)
    }
}

/// The canonical bytes of an outbound message: a discriminator in `[0, 5)`,
/// then for `Error` the failure kind, and for `GameUpdate` the nine tiles in
/// row-major order followed by the recipient's turn flag.
pub open spec fn spec_encode_server(m: ServerMessage) -> Seq<u8> {
    match m {
        ServerMessage::Error(e) => seq![0u8, spec_error_byte(e)],
        ServerMessage::WaitingForOpponentYouAreCrosses => seq![1u8],
        ServerMessage::GameUpdate(u) => seq![
            2u8,
            spec_tile_byte(u.board.t00),
            spec_tile_byte(u.board.t01),
            spec_tile_byte(u.board.t02),
            spec_tile_byte(u.board.t10),
            spec_tile_byte(u.board.t11),
            spec_tile_byte(u.board.t12),
            spec_tile_byte(u.board.t20),
            spec_tile_byte(u.board.t21),
            spec_tile_byte(u.board.t22),
            if u.turn { 1u8 } else { 0u8 },
        ],
        ServerMessage::OppositionRequestsRematch => seq![3u8],
        ServerMessage::GameEnded => seq![4u8],
    }
}

pub open spec fn spec_decode_server(b: Seq<u8>) -> Result<ServerMessage, GameError> {
    if b.len() == 2 && b[0] == 0 && b[1] < 8 {
        Ok(ServerMessage::Error(spec_byte_error(b[1])))
    } else if b.len() == 1 && b[0] == 1 {
        Ok(ServerMessage::WaitingForOpponentYouAreCrosses)
    } else if b.len() == 11 && b[0] == 2 && b[1] < 3 && b[2] < 3 && b[3] < 3 && b[4] < 3
        && b[5] < 3 && b[6] < 3 && b[7] < 3 && b[8] < 3 && b[9] < 3 && b[10] < 2 {
        Ok(ServerMessage::GameUpdate(GameUpdate {
            board: Board {
                t00: spec_byte_tile(b[1]),
                t01: spec_byte_tile(b[2]),
                t02: spec_byte_tile(b[3]),
                t10: spec_byte_tile(b[4]),
                t11: spec_byte_tile(b[5]),
                t12: spec_byte_tile(b[6]),
                t20: spec_byte_tile(b[7]),
                t21: spec_byte_tile(b[8]),
                t22: spec_byte_tile(b[9]),
            },
            turn: b[10] == 1,
        }))
    } else if b.len() == 1 && b[0] == 3 {
        Ok(ServerMessage::OppositionRequestsRematch)
    } else if b.len() == 1 && b[0] == 4 {
        Ok(ServerMessage::GameEnded)
    } else {
        Err(GameError::DecodeError)
    }
}

fn tile_byte(t: Tile) -> (b: u8)
    ensures
        b == spec_tile_byte(t),
{
    match t {
        Tile::Unplayed => 0,
        Tile::Nought => 1,
        Tile::Cross => 2,
    }
}

fn byte_tile(b: u8) -> (t: Tile)
    requires
        b < 3,
    ensures
        t == spec_byte_tile(b),
{
    if b == 0 {
        Tile::Unplayed
    } else if b == 1 {
        Tile::Nought
    } else {
        Tile::Cross
    }
}

fn error_byte(e: GameError) -> (b: u8)
    ensures
        b == spec_error_byte(e),
{
    match e {
        GameError::MatchFull => 0,
        GameError::MatchNotReady => 1,
        GameError::NotAParticipant => 2,
        GameError::GameNotInProgress => 3,
        GameError::NotYourTurn => 4,
        GameError::TileOccupied => 5,
        GameError::DecodeError => 6,
        GameError::ConnectionError => 7,
    }
}

fn byte_error(b: u8) -> (e: GameError)
    requires
        b < 8,
    ensures
        e == spec_byte_error(b),
{
    if b == 0 {
        GameError::MatchFull
    } else if b == 1 {
        GameError::MatchNotReady
    } else if b == 2 {
        GameError::NotAParticipant
    } else if b == 3 {
        GameError::GameNotInProgress
    } else if b == 4 {
        GameError::NotYourTurn
    } else if b == 5 {
        GameError::TileOccupied
    } else if b == 6 {
        GameError::DecodeError
    } else {
        GameError::ConnectionError
    }
}

/// Encoding is deterministic and total over the closed inbound message set.
pub fn encode_client(m: &ClientMessage) -> (r: Vec<u8>)
    ensures
        r@ == spec_encode_client(*m),
{
    let mut v: Vec<u8> = Vec::new();
    match m {
        ClientMessage::Move(p) => {
            v.push(0);
            v.push(p.x);
            v.push(p.y);
        }
        ClientMessage::RequestRematch => {
            v.push(1);
        }
    }
    proof {
        assert(v@ =~= spec_encode_client(*m));
    }
    v
}

/// Strict decoding of an inbound message; never panics and accepts only the
/// canonical encoding.
pub fn decode_client(bytes: &[u8]) -> (r: Result<ClientMessage, GameError>)
    ensures
        r == spec_decode_client(bytes@),
        r matches Ok(m) ==> m.wf(),
{
    if bytes.len() == 3 && bytes[0] == 0 && bytes[1] < 3 && bytes[2] < 3 {
        Ok(ClientMessage::Move(Position { x: bytes[1], y: bytes[2] }))
    } else if bytes.len() == 1 && bytes[0] == 1 {
        Ok(ClientMessage::RequestRematch)
    } else {
        Err(GameError::DecodeError)
    }
}

/// Encoding is deterministic and total over the closed outbound message set.
#[verifier::rlimit(100)]
pub fn encode_server(m: &ServerMessage) -> (r: Vec<u8>)
    ensures
        r@ == spec_encode_server(*m),
{
    match m {
        ServerMessage::Error(e) => {
            let v: Vec<u8> = vec![0, error_byte(*e)];
            proof {
                assert(v@ =~= spec_encode_server(*m));
            }
            v
        }
        ServerMessage::WaitingForOpponentYouAreCrosses => {
            let v: Vec<u8> = vec![1];
            proof {
                assert(v@ =~= spec_encode_server(*m));
            }
            v
        }
        ServerMessage::GameUpdate(u) => {
            let v: Vec<u8> = vec![
                2,
                tile_byte(u.board.t00),
                tile_byte(u.board.t01),
                tile_byte(u.board.t02),
                tile_byte(u.board.t10),
                tile_byte(u.board.t11),
                tile_byte(u.board.t12),
                tile_byte(u.board.t20),
                tile_byte(u.board.t21),
                tile_byte(u.board.t22),
                if u.turn { 1 } else { 0 },
            ];
            proof {
                assert(v@ =~= spec_encode_server(*m));
            }
            v
        }
        ServerMessage::OppositionRequestsRematch => {
            let v: Vec<u8> = vec![3];
            proof {
                assert(v@ =~= spec_encode_server(*m));
            }
            v
        }
        ServerMessage::GameEnded => {
            let v: Vec<u8> = vec![4];
            proof {
                assert(v@ =~= spec_encode_server(*m));
            }
            v
        }
    }
}

/// Strict decoding of an outbound message; never panics and accepts only the
/// canonical encoding.
pub fn decode_server(bytes: &[u8]) -> (r: Result<ServerMessage, GameError>)
    ensures
        r == spec_decode_server(bytes@),
{
    if bytes.len() == 2 && bytes[0] == 0 && bytes[1] < 8 {
        Ok(ServerMessage::Error(byte_error(bytes[1])))
    } else if bytes.len() == 1 && bytes[0] == 1 {
        Ok(ServerMessage::WaitingForOpponentYouAreCrosses)
    } else if bytes.len() == 11 && bytes[0] == 2 && bytes[1] < 3 && bytes[2] < 3 && bytes[3] < 3
        && bytes[4] < 3 && bytes[5] < 3 && bytes[6] < 3 && bytes[7] < 3 && bytes[8] < 3
        && bytes[9] < 3 && bytes[10] < 2 {
        Ok(ServerMessage::GameUpdate(GameUpdate {
            board: Board {
                t00: byte_tile(bytes[1]),
                t01: byte_tile(bytes[2]),
                t02: byte_tile(bytes[3]),
                t10: byte_tile(bytes[4]),
                t11: byte_tile(bytes[5]),
                t12: byte_tile(bytes[6]),
                t20: byte_tile(bytes[7]),
                t21: byte_tile(bytes[8]),
                t22: byte_tile(bytes[9]),
            },
            turn: bytes[10] == 1,
        }))
    } else if bytes.len() == 1 && bytes[0] == 3 {
        Ok(ServerMessage::OppositionRequestsRematch)
    } else if bytes.len() == 1 && bytes[0] == 4 {
        Ok(ServerMessage::GameEnded)
    } else {
        Err(GameError::DecodeError)
    }
}

/// Round-trip law for the inbound family: decoding the canonical bytes of any
/// constructible inbound message yields that message back.
pub proof fn lemma_client_round_trip(m: ClientMessage)
    requires
        m.wf(),
    ensures
        spec_decode_client(spec_encode_client(m)) == Ok::<ClientMessage, GameError>(m),
{
}

/// Decoding inverts encoding on one tile's byte.
proof fn lemma_tile_byte_round_trip(t: Tile)
    ensures
        spec_tile_byte(t) < 3,
        spec_byte_tile(spec_tile_byte(t)) == t,
{
}

/// Round-trip law for the outbound family: decoding the canonical bytes of
/// any outbound message yields that message back.
#[verifier::rlimit(60)]
pub proof fn lemma_server_round_trip(m: ServerMessage)
    ensures
        spec_decode_server(spec_encode_server(m)) == Ok::<ServerMessage, GameError>(m),
{
    if let ServerMessage::GameUpdate(u) = m {
        let b = spec_encode_server(m);
        lemma_tile_byte_round_trip(u.board.t00);
        lemma_tile_byte_round_trip(u.board.t01);
        lemma_tile_byte_round_trip(u.board.t02);
        lemma_tile_byte_round_trip(u.board.t10);
        lemma_tile_byte_round_trip(u.board.t11);
        lemma_tile_byte_round_trip(u.board.t12);
        lemma_tile_byte_round_trip(u.board.t20);
        lemma_tile_byte_round_trip(u.board.t21);
        lemma_tile_byte_round_trip(u.board.t22);
        assert(b.len() == 11 && b[0] == 2);
        assert(spec_decode_server(b) == Ok::<ServerMessage, GameError>(m));
    }
}

} // verus!
