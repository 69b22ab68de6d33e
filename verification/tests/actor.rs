use noughts_and_crosses::actor::{GameEvent, MatchActor, Outbound};
use noughts_and_crosses::board::Tile;
use noughts_and_crosses::codec::{decode_server, encode_client};
use noughts_and_crosses::ids::Position;
use noughts_and_crosses::messages::{ClientMessage, GameError, ServerMessage};

const A: u64 = 1;
const B: u64 = 2;

fn decoded(out: &[Outbound]) -> Vec<(u64, ServerMessage)> {
    out.iter().map(|o| (o.to, decode_server(&o.bytes).unwrap())).collect()
}

fn move_frame(x: usize, y: usize) -> Vec<u8> {
    encode_client(&ClientMessage::Move(Position::new(x, y).unwrap()))
}

#[test]
fn a_whole_match_through_the_actor() {
    let mut actor = MatchActor::new();

    // first join: waiting, as crosses
    let out = actor.handle_event(&GameEvent::Joined(A));
    assert_eq!(
        decoded(&out),
        vec![(A, ServerMessage::WaitingForOpponentYouAreCrosses)]
    );

    // second join: both sides get a snapshot of an empty grid, one turn flag true
    let out = actor.handle_event(&GameEvent::Joined(B));
    let snapshots = decoded(&out);
    assert_eq!(snapshots.len(), 2);
    assert_eq!(snapshots[0].0, A);
    assert_eq!(snapshots[1].0, B);
    let turns: Vec<bool> = snapshots
        .iter()
        .map(|(_, m)| match m {
            ServerMessage::GameUpdate(u) => u.turn,
            _ => panic!("expected a game update"),
        })
        .collect();
    assert!(turns[0] != turns[1]);

    // the side to move claims a cell; both get the new grid
    let mover = if turns[0] { A } else { B };
    let waiter = if turns[0] { B } else { A };
    let out = actor.handle_event(&GameEvent::Frame(mover, move_frame(1, 1)));
    let snapshots = decoded(&out);
    assert_eq!(snapshots.len(), 2);
    for (_, m) in &snapshots {
        match m {
            ServerMessage::GameUpdate(u) => assert!(u.board.get(1, 1) != Tile::Unplayed),
            _ => panic!("expected a game update"),
        }
    }

    // the waiter tries the same cell: the offender alone hears about it
    let out = actor.handle_event(&GameEvent::Frame(waiter, move_frame(1, 1)));
    assert_eq!(
        decoded(&out),
        vec![(waiter, ServerMessage::Error(GameError::TileOccupied))]
    );

    // garbage bytes: reported to the sender only, and the match goes on
    let out = actor.handle_event(&GameEvent::Frame(mover, vec![9, 9, 9, 9]));
    assert_eq!(
        decoded(&out),
        vec![(mover, ServerMessage::Error(GameError::DecodeError))]
    );

    // one side closes: the other is told the match ended
    let out = actor.handle_event(&GameEvent::Closed(mover));
    assert_eq!(decoded(&out), vec![(waiter, ServerMessage::GameEnded)]);

    // a later frame from the remaining side finds the match no longer ready
    let out = actor.handle_event(&GameEvent::Frame(waiter, move_frame(0, 0)));
    assert_eq!(
        decoded(&out),
        vec![(waiter, ServerMessage::Error(GameError::MatchNotReady))]
    );
}

#[test]
fn a_third_join_is_rejected_to_the_offender_alone() {
    let mut actor = MatchActor::new();
    actor.handle_event(&GameEvent::Joined(A));
    actor.handle_event(&GameEvent::Joined(B));
    let out = actor.handle_event(&GameEvent::Joined(3));
    assert_eq!(
        decoded(&out),
        vec![(3, ServerMessage::Error(GameError::MatchFull))]
    );
}

#[test]
fn a_close_before_joining_is_silent() {
    let mut actor = MatchActor::new();
    let out = actor.handle_event(&GameEvent::Closed(A));
    assert!(out.is_empty());
}
