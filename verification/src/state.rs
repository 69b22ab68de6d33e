//! The match state machine: the authoritative per-match data and the pure
//! transition logic for join, move, rematch and leave.
//!
//! Connections are represented by opaque numeric handles issued by the
//! transport boundary; the coordinator compares them only by identity.
//! Transitions never send anything themselves: each returns the notifications
//! it wants delivered, addressed by handle.

use vstd::prelude::*;

use crate::board::{Board, GameSummary, Tile};
use crate::codec::{decode_client, spec_decode_client};
use crate::ids::Position;
use crate::messages::{ClientMessage, Directed, GameError, GameUpdate, ServerMessage};

verus! {

/// The authoritative state of one match: grid, slot assignment, turn flag and
/// rematch consent flags.
#[derive(Clone, Copy, Debug)]
pub struct GameState {
    pub board: Board,
    pub crosses_session: Option<u64>,
    pub noughts_session: Option<u64>,
    pub crosses_turn: bool,
    pub crosses_requests_rematch: bool,
    pub noughts_requests_rematch: bool,
}

/// The outcome of one pure transition: the state after it, the notifications
/// it emits, and the failure it reports, if any. A failing transition leaves
/// the state unchanged and emits nothing.
pub struct Step {
    pub state: GameState,
    pub msgs: Seq<Directed>,
    pub error: Option<GameError>,
}

/// A rejected transition: state kept, nothing emitted.
pub open spec fn spec_fail(s: GameState, e: GameError) -> Step {
    Step { state: s, msgs: seq![], error: Some(e) }
}

pub open spec fn spec_occupies_cross(s: GameState, session: u64) -> bool {
    s.crosses_session == Some(session)
}

pub open spec fn spec_occupies_nought(s: GameState, session: u64) -> bool {
    s.noughts_session == Some(session)
}

pub open spec fn spec_is_participant(s: GameState, session: u64) -> bool {
    spec_occupies_cross(s, session) || spec_occupies_nought(s, session)
}

/// The full-state snapshots for whoever is seated: the crosses slot first,
/// each with its own "is it your turn" flag.
pub open spec fn spec_notify(s: GameState) -> Seq<Directed> {
    (match s.crosses_session {
        Some(c) => seq![
            (Directed {
                to: c,
                msg: ServerMessage::GameUpdate(GameUpdate { board: s.board, turn: s.crosses_turn }),
            }),
        ],
        None => seq![],
    }) + (match s.noughts_session {
        Some(n) => seq![
            (Directed {
                to: n,
                msg: ServerMessage::GameUpdate(GameUpdate { board: s.board, turn: !s.crosses_turn }),
            }),
        ],
        None => seq![],
    })
}

/// A new round: grid cleared, both consent flags cleared, the first turn set
/// from the coin, and both seated connections notified with the fresh state.
pub open spec fn spec_new_game(s: GameState, coin: bool) -> (GameState, Seq<Directed>) {
    let s2 = GameState {
        board: Board::spec_empty(),
        crosses_turn: coin,
        crosses_requests_rematch: false,
        noughts_requests_rematch: false,
        ..s
    };
    (s2, spec_notify(s2))
}

/// Join: the first connection becomes crosses and waits; the second becomes
/// noughts and starts the round; any further join fails with `MatchFull`.
pub open spec fn spec_join(s: GameState, session: u64, coin: bool) -> Step {
    if s.crosses_session is None {
        Step {
            state: GameState { crosses_session: Some(session), ..s },
            msgs: seq![
                (Directed { to: session, msg: ServerMessage::WaitingForOpponentYouAreCrosses }),
            ],
            error: None,
        }
    } else if s.noughts_session is None {
        let s1 = GameState { noughts_session: Some(session), ..s };
        Step {
            state: spec_new_game(s1, coin).0,
            msgs: spec_new_game(s1, coin).1,
            error: None,
        }
    } else {
        spec_fail(s, GameError::MatchFull)
    }
}

/// Move: rejected while the match is not ready, after a terminal outcome, for
/// strangers, out of turn, or onto a played cell; otherwise the cell takes the
/// requester's symbol, the turn flips and both sides get a snapshot.
pub open spec fn spec_move(s: GameState, session: u64, pos: Position) -> Step {
    if s.crosses_session is None || s.noughts_session is None {
        spec_fail(s, GameError::MatchNotReady)
    } else if s.board.spec_summary() != GameSummary::InProgress {
        spec_fail(s, GameError::GameNotInProgress)
    } else if !spec_is_participant(s, session) {
        spec_fail(s, GameError::NotAParticipant)
    } else if spec_occupies_cross(s, session) != s.crosses_turn {
        spec_fail(s, GameError::NotYourTurn)
    } else if s.board.at(pos.x as int, pos.y as int) != Tile::Unplayed {
        spec_fail(s, GameError::TileOccupied)
    } else {
        let sym = if spec_occupies_cross(s, session) { Tile::Cross } else { Tile::Nought };
        let s2 = GameState {
            board: s.board.spec_set(pos.x as int, pos.y as int, sym),
            crosses_turn: !s.crosses_turn,
            ..s
        };
        Step { state: s2, msgs: spec_notify(s2), error: None }
    }
}

/// Rematch: rejected while the match is not ready or for strangers. A first
/// request from a side sets that side's flag; the opponent is told unless it
/// had already asked itself, and once both flags are set a new round starts.
/// A repeated request from the same side has no additional effect.
pub open spec fn spec_rematch(s: GameState, session: u64, coin: bool) -> Step {
    if s.crosses_session is None || s.noughts_session is None {
        spec_fail(s, GameError::MatchNotReady)
    } else if !spec_is_participant(s, session) {
        spec_fail(s, GameError::NotAParticipant)
    } else if spec_occupies_cross(s, session) {
        if s.crosses_requests_rematch {
            Step { state: s, msgs: seq![], error: None }
        } else if s.noughts_requests_rematch {
            let s1 = GameState { crosses_requests_rematch: true, ..s };
            Step { state: spec_new_game(s1, coin).0, msgs: spec_new_game(s1, coin).1, error: None }
        } else {
            Step {
                state: GameState { crosses_requests_rematch: true, ..s },
                msgs: match s.noughts_session {
                    Some(n) => seq![
                        (Directed { to: n, msg: ServerMessage::OppositionRequestsRematch }),
                    ],
                    None => seq![],
                },
                error: None,
            }
        }
    } else {
        if s.noughts_requests_rematch {
            Step { state: s, msgs: seq![], error: None }
        } else if s.crosses_requests_rematch {
            let s1 = GameState { noughts_requests_rematch: true, ..s };
            Step { state: spec_new_game(s1, coin).0, msgs: spec_new_game(s1, coin).1, error: None }
        } else {
            Step {
                state: GameState { noughts_requests_rematch: true, ..s },
                msgs: match s.crosses_session {
                    Some(c) => seq![
                        (Directed { to: c, msg: ServerMessage::OppositionRequestsRematch }),
                    ],
                    None => seq![],
                },
                error: None,
            }
        }
    }
}

/// Leave: a stranger's departure is a no-op; a participant's departure
/// notifies the occupant of the other slot, then clears both slots.
pub open spec fn spec_player_left(s: GameState, session: u64) -> (GameState, Seq<Directed>) {
    if !spec_is_participant(s, session) {
        (s, seq![])
    } else {
        let msgs = if s.crosses_session is Some && s.noughts_session is Some {
            (if spec_occupies_cross(s, session) {
                match s.noughts_session {
                    Some(n) => seq![(Directed { to: n, msg: ServerMessage::GameEnded })],
                    None => seq![],
                }
            } else {
                seq![]
            }) + (if spec_occupies_nought(s, session) {
                match s.crosses_session {
                    Some(c) => seq![(Directed { to: c, msg: ServerMessage::GameEnded })],
                    None => seq![],
                }
            } else {
                seq![]
            })
        } else {
            seq![]
        };
        (GameState { crosses_session: None, noughts_session: None, ..s }, msgs)
    }
}

/// One inbound frame: decode it, then apply the transition it requests.
pub open spec fn spec_handle(s: GameState, session: u64, bytes: Seq<u8>, coin: bool) -> Step {
    match spec_decode_client(bytes) {
        Err(e) => spec_fail(s, e),
        Ok(ClientMessage::Move(p)) => spec_move(s, session, p),
        Ok(ClientMessage::RequestRematch) => spec_rematch(s, session, coin),
    }
}

/// How an executable transition's result relates to a pure `Step`: the state
/// after the call is the step's state, success returns exactly the step's
/// notifications, and failure reports exactly the step's error.
pub open spec fn matches_step(
    step: Step,
    post: GameState,
    r: Result<Vec<Directed>, GameError>,
) -> bool {
    post == step.state && match r {
        Ok(v) => step.error is None && v@ == step.msgs,
        Err(e) => step.error == Some(e),
    }
}

impl GameState {
    /// The state a match starts in: empty grid, both slots empty, no consent,
    /// crosses nominally to move (meaningless until a round starts).
    pub open spec fn spec_init() -> GameState {
        GameState {
            board: Board::spec_empty(),
            crosses_session: None,
            noughts_session: None,
            crosses_turn: false,
            crosses_requests_rematch: false,
            noughts_requests_rematch: false,
        }
    }

    pub fn new() -> (s: GameState)
        ensures
            s == GameState::spec_init(),
    {
        GameState {
            board: Board::new(),
            crosses_session: None,
            noughts_session: None,
            crosses_turn: false,
            crosses_requests_rematch: false,
            noughts_requests_rematch: false,
        }
    }

    fn occupies_cross(&self, session: u64) -> (r: bool)
        ensures
            r == spec_occupies_cross(*self, session),
    {
        match self.crosses_session {
            Some(c) => c == session,
            None => false,
        }
    }

    fn occupies_nought(&self, session: u64) -> (r: bool)
        ensures
            r == spec_occupies_nought(*self, session),
    {
        match self.noughts_session {
            Some(n) => n == session,
            None => false,
        }
    }

    /// The snapshots for whoever is seated, crosses first.
    fn notify(&self) -> (r: Vec<Directed>)
        ensures
            r@ == spec_notify(*self),
    {
        let mut v: Vec<Directed> = Vec::new();
        if let Some(c) = self.crosses_session {
            v.push(Directed {
                to: c,
                msg: ServerMessage::GameUpdate(GameUpdate { board: self.board, turn: self.crosses_turn }),
            });
        }
        if let Some(n) = self.noughts_session {
            v.push(Directed {
                to: n,
                msg: ServerMessage::GameUpdate(GameUpdate { board: self.board, turn: !self.crosses_turn }),
            });
        }
        proof {
            assert(v@ =~= spec_notify(*self));
        }
        v
    }

    /// Clears the previous round and hands the first turn to the given side;
    /// the deterministic core of `new_game`.
    pub fn new_game_with_turn(&mut self, crosses_turn: bool) -> (r: Vec<Directed>)
        ensures
            *final(self) == spec_new_game(*old(self), crosses_turn).0,
            r@ == spec_new_game(*old(self), crosses_turn).1,
    {
        self.board.clear();
        self.crosses_requests_rematch = false;
        self.noughts_requests_rematch = false;
        self.crosses_turn = crosses_turn;
        self.notify()
    }

    /// Clears the previous round and flips a coin to see who starts. Every
    /// guarantee below holds whichever way the coin lands; the landed value
    /// can be read off the new turn flag.
    pub fn new_game(&mut self) -> (r: Vec<Directed>)
        ensures
            *final(self) == spec_new_game(*old(self), final(self).crosses_turn).0,
            r@ == spec_new_game(*old(self), final(self).crosses_turn).1,
    {
        let coin = rand::random::<bool>();
        self.new_game_with_turn(coin)
    }

    /// A request to join the match, with the first turn of a round started by
    /// it handed to the given side; the deterministic core of `join`.
    pub fn join_with_turn(&mut self, session: u64, first_turn: bool) -> (r: Result<
        Vec<Directed>,
        GameError,
    >)
        ensures
            matches_step(spec_join(*old(self), session, first_turn), *final(self), r),
            old(self).crosses_session is None ==> r is Ok && final(self).crosses_session
                == Some(session),
            old(self).crosses_session is Some && old(self).noughts_session is Some ==> r
                == Err::<Vec<Directed>, GameError>(GameError::MatchFull) && *final(self) == *old(self),
    {
        if self.crosses_session.is_none() {
            self.crosses_session = Some(session);
            let r: Vec<Directed> = vec![
                Directed { to: session, msg: ServerMessage::WaitingForOpponentYouAreCrosses },
            ];
            proof {
                assert(r@ =~= spec_join(*old(self), session, first_turn).msgs);
            }
            Ok(r)
        } else if self.noughts_session.is_none() {
            self.noughts_session = Some(session);
            Ok(self.new_game_with_turn(first_turn))
        } else {
            Err(GameError::MatchFull)
        }
    }

    /// A request to join the match. The first joiner always becomes crosses;
    /// the second starts a round with a coin flip for the first turn; a third
    /// always fails with `MatchFull` and changes nothing.
    pub fn join(&mut self, session: u64) -> (r: Result<Vec<Directed>, GameError>)
        ensures
            matches_step(
                spec_join(*old(self), session, final(self).crosses_turn),
                *final(self),
                r,
            ),
            old(self).crosses_session is None ==> r is Ok && final(self).crosses_session
                == Some(session),
            old(self).crosses_session is Some && old(self).noughts_session is Some ==> r
                == Err::<Vec<Directed>, GameError>(GameError::MatchFull) && *final(self) == *old(self),
    {
        let coin = rand::random::<bool>();
        self.join_with_turn(session, coin)
    }

    /// An attempt by `session` to claim the cell at `pos`. Rejection is
    /// exhaustive and leaves the state untouched; a legal move writes exactly
    /// one cell, flips the turn and snapshots both sides.
    pub fn apply_move(&mut self, session: u64, pos: Position) -> (r: Result<Vec<Directed>, GameError>)
        requires
            pos.wf(),
        ensures
            matches_step(spec_move(*old(self), session, pos), *final(self), r),
            r is Err ==> *final(self) == *old(self),
            r is Ok ==> final(self).crosses_turn == !old(self).crosses_turn,
            r == Err::<Vec<Directed>, GameError>(GameError::MatchNotReady) <==> (
            old(self).crosses_session is None || old(self).noughts_session is None),
            r == Err::<Vec<Directed>, GameError>(GameError::GameNotInProgress) <==> (
            old(self).crosses_session is Some && old(self).noughts_session is Some
                && old(self).board.spec_summary() != GameSummary::InProgress),
            r == Err::<Vec<Directed>, GameError>(GameError::NotAParticipant) <==> (
            old(self).crosses_session is Some && old(self).noughts_session is Some
                && old(self).board.spec_summary() == GameSummary::InProgress
                && !spec_is_participant(*old(self), session)),
            r == Err::<Vec<Directed>, GameError>(GameError::NotYourTurn) <==> (
            old(self).crosses_session is Some && old(self).noughts_session is Some
                && old(self).board.spec_summary() == GameSummary::InProgress
                && spec_is_participant(*old(self), session)
                && spec_occupies_cross(*old(self), session) != old(self).crosses_turn),
            r == Err::<Vec<Directed>, GameError>(GameError::TileOccupied) <==> (
            old(self).crosses_session is Some && old(self).noughts_session is Some
                && old(self).board.spec_summary() == GameSummary::InProgress
                && spec_is_participant(*old(self), session)
                && spec_occupies_cross(*old(self), session) == old(self).crosses_turn
                && old(self).board.at(pos.x as int, pos.y as int) != Tile::Unplayed),
    {
        if self.crosses_session.is_none() || self.noughts_session.is_none() {
            return Err(GameError::MatchNotReady);
        }
        let summary = self.board.summary();
        if !(summary == GameSummary::InProgress) {
            return Err(GameError::GameNotInProgress);
        }
        let is_cross = self.occupies_cross(session);
        let is_nought = self.occupies_nought(session);
        if !is_cross && !is_nought {
            return Err(GameError::NotAParticipant);
        }
        if is_cross != self.crosses_turn {
            return Err(GameError::NotYourTurn);
        }
        let x = pos.x();
        let y = pos.y();
        if !(self.board.get(x, y) == Tile::Unplayed) {
            return Err(GameError::TileOccupied);
        }
        let sym = if is_cross { Tile::Cross } else { Tile::Nought };
        self.board.set(x, y, sym);
        self.crosses_turn = !self.crosses_turn;
        Ok(self.notify())
    }

    /// A rematch request from `session`, with the first turn of a round
    /// started by it handed to the given side; the deterministic core of
    /// `apply_rematch`.
    pub fn apply_rematch_with_turn(&mut self, session: u64, first_turn: bool) -> (r: Result<
        Vec<Directed>,
        GameError,
    >)
        ensures
            matches_step(spec_rematch(*old(self), session, first_turn), *final(self), r),
    {
        if self.crosses_session.is_none() || self.noughts_session.is_none() {
            return Err(GameError::MatchNotReady);
        }
        let is_cross = self.occupies_cross(session);
        let is_nought = self.occupies_nought(session);
        if !is_cross && !is_nought {
            return Err(GameError::NotAParticipant);
        }
        if is_cross {
            if self.crosses_requests_rematch {
                Ok(Vec::new())
            } else if self.noughts_requests_rematch {
                self.crosses_requests_rematch = true;
                Ok(self.new_game_with_turn(first_turn))
            } else {
                self.crosses_requests_rematch = true;
                let mut v: Vec<Directed> = Vec::new();
                if let Some(n) = self.noughts_session {
                    v.push(Directed { to: n, msg: ServerMessage::OppositionRequestsRematch });
                }
                proof {
                    assert(v@ =~= spec_rematch(*old(self), session, first_turn).msgs);
                }
                Ok(v)
            }
        } else {
            if self.noughts_requests_rematch {
                Ok(Vec::new())
            } else if self.crosses_requests_rematch {
                self.noughts_requests_rematch = true;
                Ok(self.new_game_with_turn(first_turn))
            } else {
                self.noughts_requests_rematch = true;
                let mut v: Vec<Directed> = Vec::new();
                if let Some(c) = self.crosses_session {
                    v.push(Directed { to: c, msg: ServerMessage::OppositionRequestsRematch });
                }
                proof {
                    assert(v@ =~= spec_rematch(*old(self), session, first_turn).msgs);
                }
                Ok(v)
            }
        }
    }

    /// A rematch request from `session`; if it completes the mutual consent,
    /// the round it starts flips a coin for the first turn.
    pub fn apply_rematch(&mut self, session: u64) -> (r: Result<Vec<Directed>, GameError>)
        ensures
            matches_step(
                spec_rematch(*old(self), session, final(self).crosses_turn),
                *final(self),
                r,
            ),
    {
        let coin = rand::random::<bool>();
        self.apply_rematch_with_turn(session, coin)
    }

    /// The departure of `session`. A stranger's departure is a no-op; a
    /// participant's departure notifies the other side (if seated) that the
    /// match ended and always clears both slots.
    pub fn player_left(&mut self, session: u64) -> (r: Vec<Directed>)
        ensures
            *final(self) == spec_player_left(*old(self), session).0,
            r@ == spec_player_left(*old(self), session).1,
            spec_is_participant(*old(self), session) ==> final(self).crosses_session is None
                && final(self).noughts_session is None,
            !spec_is_participant(*old(self), session) ==> *final(self) == *old(self) && r@
                == Seq::<Directed>::empty(),
    {
        let is_cross = self.occupies_cross(session);
        let is_nought = self.occupies_nought(session);
        if !is_cross && !is_nought {
            let r: Vec<Directed> = Vec::new();
            proof {
                assert(r@ =~= spec_player_left(*old(self), session).1);
            }
            return r;
        }
        let mut v: Vec<Directed> = Vec::new();
        if self.crosses_session.is_some() && self.noughts_session.is_some() {
            if is_cross {
                if let Some(n) = self.noughts_session {
                    v.push(Directed { to: n, msg: ServerMessage::GameEnded });
                }
            }
            if is_nought {
                if let Some(c) = self.crosses_session {
                    v.push(Directed { to: c, msg: ServerMessage::GameEnded });
                }
            }
        }
        self.crosses_session = None;
        self.noughts_session = None;
        proof {
            assert(v@ =~= spec_player_left(*old(self), session).1);
        }
        v
    }

    /// One inbound frame from `session`: decode it and apply the requested
    /// transition, with the first turn of a round started by a completed
    /// rematch handed to the given side; the deterministic core of
    /// `handle_message`.
    pub fn handle_message_with_turn(&mut self, session: u64, bytes: &[u8], first_turn: bool) -> (r:
        Result<Vec<Directed>, GameError>)
        ensures
            matches_step(
                spec_handle(*old(self), session, bytes@, first_turn),
                *final(self),
                r,
            ),
    {
        match decode_client(bytes) {
            Err(e) => Err(e),
            Ok(ClientMessage::Move(p)) => self.apply_move(session, p),
            Ok(ClientMessage::RequestRematch) => self.apply_rematch_with_turn(session, first_turn),
        }
    }

    /// One inbound frame from `session`: decode it and apply the requested
    /// transition; a round started by a completed rematch flips a coin for
    /// the first turn.
    pub fn handle_message(&mut self, session: u64, bytes: &[u8]) -> (r: Result<
        Vec<Directed>,
        GameError,
    >)
        ensures
            matches_step(
                spec_handle(*old(self), session, bytes@, final(self).crosses_turn),
                *final(self),
                r,
            ),
    {
        let coin = rand::random::<bool>();
        self.handle_message_with_turn(session, bytes, coin)
    }
}

impl Default for GameState {
    fn default() -> (s: GameState)
        ensures
            s == GameState::spec_init(),
    {
        GameState::new()
    }
}

/// Turn alternation: a legal move always flips the turn flag, whatever the
/// prior state was.
pub proof fn lemma_turn_alternates(s: GameState, session: u64, pos: Position)
    requires
        spec_move(s, session, pos).error is None,
    ensures
        spec_move(s, session, pos).state.crosses_turn == !s.crosses_turn,
{
}

/// A rematch request from one side alone never clears the grid, never resets
/// either consent flag, and never touches the seats or the turn.
pub proof fn lemma_rematch_one_sided(s: GameState, session: u64, coin: bool)
    requires
        s.crosses_session is Some,
        s.noughts_session is Some,
        spec_is_participant(s, session),
        spec_occupies_cross(s, session) ==> !s.noughts_requests_rematch,
        !spec_occupies_cross(s, session) ==> !s.crosses_requests_rematch,
    ensures
        spec_rematch(s, session, coin).error is None,
        spec_rematch(s, session, coin).state.board == s.board,
        spec_rematch(s, session, coin).state.crosses_turn == s.crosses_turn,
        spec_rematch(s, session, coin).state.crosses_session == s.crosses_session,
        spec_rematch(s, session, coin).state.noughts_session == s.noughts_session,
        s.crosses_requests_rematch ==> spec_rematch(s, session, coin).state.crosses_requests_rematch,
        s.noughts_requests_rematch ==> spec_rematch(s, session, coin).state.noughts_requests_rematch,
{
}

/// Rematch requires mutual consent: with two distinct seated participants and
/// no consent yet, the first request only records consent and asks the other
/// side, and the second request—from the other side, in either order—starts
/// exactly one fresh round: grid cleared, flags cleared, both sides
/// re-notified with the fresh state.
pub proof fn lemma_rematch_mutual_consent(
    s: GameState,
    first: u64,
    second: u64,
    coin1: bool,
    coin2: bool,
)
    requires
        s.crosses_session is Some,
        s.noughts_session is Some,
        first != second,
        spec_is_participant(s, first),
        spec_is_participant(s, second),
        !s.crosses_requests_rematch,
        !s.noughts_requests_rematch,
    ensures
        ({
            let step1 = spec_rematch(s, first, coin1);
            let step2 = spec_rematch(step1.state, second, coin2);
            step1.error is None && step2.error is None
            // the first request starts nothing:
            && step1.state.board == s.board && step1.state.crosses_turn == s.crosses_turn && !(
            step1.state.crosses_requests_rematch && step1.state.noughts_requests_rematch)
            // and asks only the other side:
            && step1.msgs == seq![
                (Directed { to: second, msg: ServerMessage::OppositionRequestsRematch }),
            ]
            // the second request starts exactly one fresh round:
            && step2.state.board == Board::spec_empty() && !step2.state.crosses_requests_rematch
                && !step2.state.noughts_requests_rematch && step2.state.crosses_turn == coin2
                && step2.msgs == spec_notify(step2.state) && step2.msgs.len() == 2
        }),
{
    let step1 = spec_rematch(s, first, coin1);
    let step2 = spec_rematch(step1.state, second, coin2);
    assert(step1.msgs =~= seq![
        (Directed { to: second, msg: ServerMessage::OppositionRequestsRematch }),
    ]);
    assert(step2.msgs.len() == 2);
}

/// Leave always clears both slots, whichever side left, and notifies only the
/// occupant of the other slot.
pub proof fn lemma_leave_clears_and_notifies(s: GameState, leaver: u64, other: u64)
    requires
        leaver != other,
        (s.crosses_session == Some(leaver) && s.noughts_session == Some(other)) || (
        s.crosses_session == Some(other) && s.noughts_session == Some(leaver)),
    ensures
        spec_player_left(s, leaver).0.crosses_session is None,
        spec_player_left(s, leaver).0.noughts_session is None,
        spec_player_left(s, leaver).1 == seq![(Directed { to: other, msg: ServerMessage::GameEnded })],
{
    assert(spec_player_left(s, leaver).1 =~= seq![
        (Directed { to: other, msg: ServerMessage::GameEnded }),
    ]);
}

} // verus!
