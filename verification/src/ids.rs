//! Match identifiers and in-range cell positions.

use vstd::prelude::*;

use crate::rng::{char_is_alphanumeric, is_alnum_char, random_token};

verus! {

/// The number of characters in a match identifier token.
pub const GAME_ID_LENGTH: usize = 8;

/// Why a candidate match identifier was rejected.
#[derive(Clone, Copy, Debug, PartialEq, Eq, Structural)]
pub enum GameIDParseError {
    InvalidLength,
    InvalidCharacters,
}

/// An opaque fixed-length alphanumeric token identifying a match. It is used
/// only for routing; the coordinator never looks inside it.
#[derive(Clone, Debug, PartialEq, Eq)]
pub struct GameID(String);

impl View for GameID {
    type V = Seq<char>;

    closed spec fn view(&self) -> Seq<char> {
        self.0@
    }
}

/// A token is well formed when it has exactly the fixed length and every
/// character is alphanumeric.
pub open spec fn game_id_chars_ok(s: Seq<char>) -> bool {
    s.len() == GAME_ID_LENGTH && forall|i: int| 0 <= i < s.len() ==> is_alnum_char(#[trigger] s[i])
}

impl GameID {
    pub open spec fn wf(&self) -> bool {
        game_id_chars_ok(self@)
    }

    /// A freshly sampled random token.
    pub fn new() -> (g: GameID)
        ensures
            g.wf(),
    {
        GameID(random_token(GAME_ID_LENGTH))
    }

    /// Validates a candidate token: the fixed length is checked first, then
    /// that every character is alphanumeric.
    pub fn parse(value: &str) -> (r: Result<GameID, GameIDParseError>)
        ensures
            match r {
                Ok(g) => game_id_chars_ok(value@) && g@ == value@,
                Err(GameIDParseError::InvalidLength) => value@.len() != GAME_ID_LENGTH,
                Err(GameIDParseError::InvalidCharacters) => value@.len() == GAME_ID_LENGTH
                    && !game_id_chars_ok(value@),
            },
    {
        let mut count: usize = 0;
        let mut all_alnum: bool = true;
        for c in it: value.chars()
            invariant
                it.seq() == value@,
                count == if it.index() <= GAME_ID_LENGTH { it.index() } else { GAME_ID_LENGTH + 1 },
                all_alnum <==> (forall|j: int|
                    0 <= j < it.index() ==> is_alnum_char(#[trigger] value@[j])),
        {
            if count < GAME_ID_LENGTH {
                count = count + 1;
            } else {
                count = GAME_ID_LENGTH + 1;
            }
            if !char_is_alphanumeric(c) {
                all_alnum = false;
            }
        }
        if count != GAME_ID_LENGTH {
            Err(GameIDParseError::InvalidLength)
        } else if !all_alnum {
            Err(GameIDParseError::InvalidCharacters)
        } else {
            Ok(GameID(value.to_owned()))
        }
    }

    /// The token's text.
    pub fn as_str(&self) -> (s: &str)
        ensures
            s@ == self@,
    {
        self.0.as_str()
    }
}

impl Default for GameID {
    /// A freshly sampled random token.
    fn default() -> (g: GameID)
        ensures
            g.wf(),
    {
        GameID::new()
    }
}

/// Why a candidate coordinate pair was rejected.
#[derive(Clone, Copy, Debug, PartialEq, Eq, Structural)]
pub enum PositionParseError {
    XOutOfBounds,
    YOutOfBounds,
}

/// A coordinate pair on the grid, each component in `[0, 3)`; construction
/// from out-of-range values fails rather than clamping.
#[derive(Clone, Copy, Debug, PartialEq, Eq, Structural)]
pub struct Position {
    pub x: u8,
    pub y: u8,
}

impl Position {
    /// Both coordinates are in range. Construction through `new` and decoding
    /// establish this, and every consumer of a `Position` assumes it.
    pub open spec fn wf(&self) -> bool {
        self.x < 3 && self.y < 3
    }

    /// Validates a coordinate pair, the first coordinate before the second.
    pub fn new(x: usize, y: usize) -> (r: Result<Position, PositionParseError>)
        ensures
            match r {
                Ok(p) => x < 3 && y < 3 && p == (Position { x: x as u8, y: y as u8 }) && p.wf(),
                Err(PositionParseError::XOutOfBounds) => x >= 3,
                Err(PositionParseError::YOutOfBounds) => x < 3 && y >= 3,
            },
    {
        if x >= 3 {
            Err(PositionParseError::XOutOfBounds)
        } else if y >= 3 {
            Err(PositionParseError::YOutOfBounds)
        } else {
            Ok(Position { x: x as u8, y: y as u8 })
        }
    }

    pub fn x(&self) -> (r: usize)
        ensures
            r == self.x as usize,
    {
        self.x as usize
    }

    pub fn y(&self) -> (r: usize)
        ensures
            r == self.y as usize,
    {
        self.y as usize
    }
}

} // verus!
