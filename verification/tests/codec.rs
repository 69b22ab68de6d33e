use noughts_and_crosses::board::{Board, Tile};
use noughts_and_crosses::codec::{decode_client, decode_server, encode_client, encode_server};
use noughts_and_crosses::ids::Position;
use noughts_and_crosses::messages::{ClientMessage, GameError, GameUpdate, ServerMessage};

fn sample_board() -> Board {
    let mut b = Board::new();
    b.set(0, 0, Tile::Cross);
    b.set(1, 1, Tile::Nought);
    b.set(2, 2, Tile::Cross);
    b
}

#[test]
fn client_move_round_trip() {
    let p = Position::new(2, 1).unwrap();
    let m = ClientMessage::Move(p);
    let bytes = encode_client(&m);
    assert_eq!(bytes, vec![0, 2, 1]);
    assert_eq!(decode_client(&bytes), Ok(m));
}

#[test]
fn client_rematch_round_trip() {
    let m = ClientMessage::RequestRematch;
    let bytes = encode_client(&m);
    assert_eq!(bytes, vec![1]);
    assert_eq!(decode_client(&bytes), Ok(m));
}

#[test]
fn server_round_trip_every_variant() {
    let messages = vec![
        ServerMessage::Error(GameError::MatchFull),
        ServerMessage::Error(GameError::MatchNotReady),
        ServerMessage::Error(GameError::NotAParticipant),
        ServerMessage::Error(GameError::GameNotInProgress),
        ServerMessage::Error(GameError::NotYourTurn),
        ServerMessage::Error(GameError::TileOccupied),
        ServerMessage::Error(GameError::DecodeError),
        ServerMessage::Error(GameError::ConnectionError),
        ServerMessage::WaitingForOpponentYouAreCrosses,
        ServerMessage::GameUpdate(GameUpdate { board: sample_board(), turn: true }),
        ServerMessage::GameUpdate(GameUpdate { board: Board::new(), turn: false }),
        ServerMessage::OppositionRequestsRematch,
        ServerMessage::GameEnded,
    ];
    for m in messages {
        assert_eq!(decode_server(&encode_server(&m)), Ok(m));
    }
}

#[test]
fn server_update_exact_bytes() {
    let m = ServerMessage::GameUpdate(GameUpdate { board: sample_board(), turn: true });
    // tag, nine tiles in row-major order (unplayed 0, nought 1, cross 2), turn
    assert_eq!(encode_server(&m), vec![2, 2, 0, 0, 0, 1, 0, 0, 0, 2, 1]);
}

#[test]
fn decode_client_rejects_malformed() {
    assert_eq!(decode_client(&[]), Err(GameError::DecodeError));
    assert_eq!(decode_client(&[9]), Err(GameError::DecodeError));
    // truncated move
    assert_eq!(decode_client(&[0, 1]), Err(GameError::DecodeError));
    // out-of-range coordinates
    assert_eq!(decode_client(&[0, 3, 0]), Err(GameError::DecodeError));
    assert_eq!(decode_client(&[0, 0, 3]), Err(GameError::DecodeError));
    // trailing bytes
    assert_eq!(decode_client(&[1, 0]), Err(GameError::DecodeError));
}

#[test]
fn decode_server_rejects_malformed() {
    assert_eq!(decode_server(&[]), Err(GameError::DecodeError));
    assert_eq!(decode_server(&[5]), Err(GameError::DecodeError));
    // unknown error kind
    assert_eq!(decode_server(&[0, 8]), Err(GameError::DecodeError));
    // truncated update
    assert_eq!(decode_server(&[2, 0, 0]), Err(GameError::DecodeError));
    // a tile byte out of range
    assert_eq!(
        decode_server(&[2, 3, 0, 0, 0, 0, 0, 0, 0, 0, 1]),
        Err(GameError::DecodeError)
    );
    // a turn byte out of range
    assert_eq!(
        decode_server(&[2, 0, 0, 0, 0, 0, 0, 0, 0, 0, 2]),
        Err(GameError::DecodeError)
    );
}
