//! The per-match event handler. It owns exactly one `GameState`; the plumbing
//! around the library delivers each connection's events to it strictly one at
//! a time (join, then decoded frames, then one close), performs the sends it
//! asks for, and keeps processing subsequent events after a reported failure
//! unless the transport itself closes.

use vstd::prelude::*;

use crate::codec::{encode_server, spec_encode_server};
use crate::messages::{Directed, GameError, ServerMessage};
use crate::state::{
    spec_handle, spec_join, spec_player_left, GameState, Step,
};

verus! {

/// One externally delivered event: a connection joined, sent a binary frame,
/// or closed.
#[derive(Clone, Debug)]
pub enum GameEvent {
    Joined(u64),
    Frame(u64, Vec<u8>),
    Closed(u64),
}

/// The connection an event came from; a failure is reported to it alone.
pub open spec fn spec_offender(ev: GameEvent) -> u64 {
    match ev {
        GameEvent::Joined(c) => c,
        GameEvent::Frame(c, _) => c,
        GameEvent::Closed(c) => c,
    }
}

/// What one event does to the match state: the corresponding pure transition,
/// with a close delivered as a leave that cannot fail.
pub open spec fn spec_actor_step(s: GameState, ev: GameEvent, coin: bool) -> Step {
    match ev {
        GameEvent::Joined(c) => spec_join(s, c, coin),
        GameEvent::Frame(c, bytes) => spec_handle(s, c, bytes@, coin),
        GameEvent::Closed(c) => Step {
            state: spec_player_left(s, c).0,
            msgs: spec_player_left(s, c).1,
            error: None,
        },
    }
}

/// An encoded notification ready for the transport, addressed by handle.
#[derive(Clone, Debug, PartialEq, Eq)]
pub struct Outbound {
    pub to: u64,
    pub bytes: Vec<u8>,
}

/// The actor owning one match: all events for the match funnel through it
/// sequentially, so each transition completes—state mutation and the
/// notifications it emits—before the next event is looked at.
pub struct MatchActor {
    pub state: GameState,
}

impl MatchActor {
    pub fn new() -> (a: MatchActor)
        ensures
            a.state == GameState::spec_init(),
    {
        MatchActor { state: GameState::new() }
    }

    /// Applies one event: the state moves to the transition's result; on
    /// success every notification goes out encoded, and on failure a single
    /// encoded `Error` goes back to the offending connection alone. A round
    /// started by the event flips a coin for the first turn; every guarantee
    /// holds whichever way it lands, and the landed value can be read off the
    /// new turn flag.
    pub fn handle_event(&mut self, ev: &GameEvent) -> (out: Vec<Outbound>)
        ensures
            ({
                let step = spec_actor_step(old(self).state, *ev, final(self).state.crosses_turn);
                &&& final(self).state == step.state
                &&& (step.error is None ==> out@.len() == step.msgs.len() && (forall|i: int|
                    0 <= i < out@.len() ==> (#[trigger] out@[i]).to == step.msgs[i].to
                        && out@[i].bytes@ == spec_encode_server(step.msgs[i].msg)))
                &&& (match step.error {
                    Some(e) => out@.len() == 1 && out@[0].to == spec_offender(*ev)
                        && out@[0].bytes@ == spec_encode_server(ServerMessage::Error(e)),
                    None => true,
                })
            }),
    {
        let r: Result<Vec<Directed>, GameError> = match ev {
            GameEvent::Joined(c) => self.state.join(*c),
            GameEvent::Frame(c, bytes) => self.state.handle_message(*c, bytes.as_slice()),
            GameEvent::Closed(c) => Ok(self.state.player_left(*c)),
        };
        match r {
            Ok(msgs) => {
                let mut out: Vec<Outbound> = Vec::new();
                let mut i: usize = 0;
                while i < msgs.len()
                    invariant
                        i <= msgs.len(),
                        out@.len() == i,
                        forall|j: int|
                            0 <= j < i ==> (#[trigger] out@[j]).to == msgs@[j].to
                                && out@[j].bytes@ == spec_encode_server(msgs@[j].msg),
                    decreases msgs.len() - i,
                {
                    let d = &msgs[i];
                    out.push(Outbound { to: d.to, bytes: encode_server(&d.msg) });
                    i = i + 1;
                }
                out
            }
            Err(e) => {
                let offender = match ev {
                    GameEvent::Joined(c) => *c,
                    GameEvent::Frame(c, _) => *c,
                    GameEvent::Closed(c) => *c,
                };
                let mut out: Vec<Outbound> = Vec::new();
                out.push(Outbound { to: offender, bytes: encode_server(&ServerMessage::Error(e)) });
                out
            }
        }
    }
}

} // verus!
