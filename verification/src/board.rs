//! The 3x3 grid and the pure win/draw evaluation over it.

use vstd::prelude::*;

verus! {

/// One cell of the grid.
#[derive(Clone, Copy, Debug, PartialEq, Eq, Structural)]
pub enum Tile {
    Unplayed,
    Nought,
    Cross,
}

impl Tile {
    pub fn is_cross(&self) -> (r: bool)
        ensures
            r == (*self == Tile::Cross),
    {
        *self == Tile::Cross
    }

    pub fn is_nought(&self) -> (r: bool)
        ensures
            r == (*self == Tile::Nought),
    {
        *self == Tile::Nought
    }

    pub fn is_unplayed(&self) -> (r: bool)
        ensures
            r == (*self == Tile::Unplayed),
    {
        *self == Tile::Unplayed
    }
}

impl Default for Tile {
    fn default() -> (r: Tile)
        ensures
            r == Tile::Unplayed,
    {
        Tile::Unplayed
    }
}

/// The outcome of evaluating a grid; the terminal set is everything but
/// `InProgress`.
#[derive(Clone, Copy, Debug, PartialEq, Eq, Structural)]
pub enum GameSummary {
    InProgress,
    NoughtWin,
    CrossWin,
    Tie,
}

impl GameSummary {
    pub fn is_finished(&self) -> (r: bool)
        ensures
            r == (*self != GameSummary::InProgress),
    {
        !(*self == GameSummary::InProgress)
    }
}

impl Default for GameSummary {
    fn default() -> (r: GameSummary)
        ensures
            r == GameSummary::InProgress,
    {
        GameSummary::InProgress
    }
}

/// The 3x3 grid. Cell `(x, y)` of the nested-array layout `rows[x][y]` is the
/// field `t<x><y>`; any arrangement of tiles is a well-formed value.
#[derive(Clone, Copy, Debug, PartialEq, Eq, Structural)]
pub struct Board {
    pub t00: Tile,
    pub t01: Tile,
    pub t02: Tile,
    pub t10: Tile,
    pub t11: Tile,
    pub t12: Tile,
    pub t20: Tile,
    pub t21: Tile,
    pub t22: Tile,
}

impl Board {
    /// The tile at coordinates `(x, y)`.
    pub open spec fn at(self, x: int, y: int) -> Tile
        recommends
            0 <= x < 3,
            0 <= y < 3,
    {
        if x == 0 {
            if y == 0 { self.t00 } else if y == 1 { self.t01 } else { self.t02 }
        } else if x == 1 {
            if y == 0 { self.t10 } else if y == 1 { self.t11 } else { self.t12 }
        } else {
            if y == 0 { self.t20 } else if y == 1 { self.t21 } else { self.t22 }
        }
    }

    /// The grid with every cell unplayed.
    pub open spec fn spec_empty() -> Board {
        Board {
            t00: Tile::Unplayed,
            t01: Tile::Unplayed,
            t02: Tile::Unplayed,
            t10: Tile::Unplayed,
            t11: Tile::Unplayed,
            t12: Tile::Unplayed,
            t20: Tile::Unplayed,
            t21: Tile::Unplayed,
            t22: Tile::Unplayed,
        }
    }

    /// The grid with cell `(x, y)` replaced by `t`.
    pub open spec fn spec_set(self, x: int, y: int, t: Tile) -> Board
        recommends
            0 <= x < 3,
            0 <= y < 3,
    {
        if x == 0 {
            if y == 0 {
                Board { t00: t, ..self }
            } else if y == 1 {
                Board { t01: t, ..self }
            } else {
                Board { t02: t, ..self }
            }
        } else if x == 1 {
            if y == 0 {
                Board { t10: t, ..self }
            } else if y == 1 {
                Board { t11: t, ..self }
            } else {
                Board { t12: t, ..self }
            }
        } else {
            if y == 0 {
                Board { t20: t, ..self }
            } else if y == 1 {
                Board { t21: t, ..self }
            } else {
                Board { t22: t, ..self }
            }
        }
    }

    /// Row `x` (cells sharing the first coordinate) is all `t`.
    pub open spec fn row_all(self, x: int, t: Tile) -> bool {
        self.at(x, 0) == t && self.at(x, 1) == t && self.at(x, 2) == t
    }

    /// Column `y` (cells sharing the second coordinate) is all `t`.
    pub open spec fn col_all(self, y: int, t: Tile) -> bool {
        self.at(0, y) == t && self.at(1, y) == t && self.at(2, y) == t
    }

    pub open spec fn any_row(self, t: Tile) -> bool {
        self.row_all(0, t) || self.row_all(1, t) || self.row_all(2, t)
    }

    pub open spec fn any_col(self, t: Tile) -> bool {
        self.col_all(0, t) || self.col_all(1, t) || self.col_all(2, t)
    }

    pub open spec fn diag_all(self, t: Tile) -> bool {
        self.at(0, 0) == t && self.at(1, 1) == t && self.at(2, 2) == t
    }

    pub open spec fn anti_diag_all(self, t: Tile) -> bool {
        self.at(0, 2) == t && self.at(1, 1) == t && self.at(2, 0) == t
    }

    /// Some complete line (row, column or diagonal) is all `t`.
    pub open spec fn wins(self, t: Tile) -> bool {
        self.any_row(t) || self.any_col(t) || self.diag_all(t) || self.anti_diag_all(t)
    }

    pub open spec fn is_full(self) -> bool {
        &&& self.t00 != Tile::Unplayed
        &&& self.t01 != Tile::Unplayed
        &&& self.t02 != Tile::Unplayed
        &&& self.t10 != Tile::Unplayed
        &&& self.t11 != Tile::Unplayed
        &&& self.t12 != Tile::Unplayed
        &&& self.t20 != Tile::Unplayed
        &&& self.t21 != Tile::Unplayed
        &&& self.t22 != Tile::Unplayed
    }

    /// The outcome of a grid, with the checks in the order the evaluation
    /// performs them: rows, then columns, then the two diagonals, crosses
    /// before noughts at each step, then fullness.
    pub open spec fn spec_summary(self) -> GameSummary {
        if self.any_row(Tile::Cross) {
            GameSummary::CrossWin
        } else if self.any_row(Tile::Nought) {
            GameSummary::NoughtWin
        } else if self.any_col(Tile::Cross) {
            GameSummary::CrossWin
        } else if self.any_col(Tile::Nought) {
            GameSummary::NoughtWin
        } else if self.diag_all(Tile::Cross) {
            GameSummary::CrossWin
        } else if self.diag_all(Tile::Nought) {
            GameSummary::NoughtWin
        } else if self.anti_diag_all(Tile::Cross) {
            GameSummary::CrossWin
        } else if self.anti_diag_all(Tile::Nought) {
            GameSummary::NoughtWin
        } else if self.is_full() {
            GameSummary::Tie
        } else {
            GameSummary::InProgress
        }
    }

    pub fn new() -> (b: Board)
        ensures
            b == Board::spec_empty(),
    {
        Board {
            t00: Tile::Unplayed,
            t01: Tile::Unplayed,
            t02: Tile::Unplayed,
            t10: Tile::Unplayed,
            t11: Tile::Unplayed,
            t12: Tile::Unplayed,
            t20: Tile::Unplayed,
            t21: Tile::Unplayed,
            t22: Tile::Unplayed,
        }
    }

    /// Builds a grid from the nested-array layout `rows[x][y]`.
    pub fn from_rows(rows: [[Tile; 3]; 3]) -> (b: Board)
        ensures
            forall|x: int, y: int|
                0 <= x < 3 && 0 <= y < 3 ==> b.at(x, y) == rows@[x]@[y],
    {
        Board {
            t00: rows[0][0],
            t01: rows[0][1],
            t02: rows[0][2],
            t10: rows[1][0],
            t11: rows[1][1],
            t12: rows[1][2],
            t20: rows[2][0],
            t21: rows[2][1],
            t22: rows[2][2],
        }
    }

    pub fn get(&self, x: usize, y: usize) -> (t: Tile)
        requires
            x < 3,
            y < 3,
        ensures
            t == self.at(x as int, y as int),
    {
        if x == 0 {
            if y == 0 { self.t00 } else if y == 1 { self.t01 } else { self.t02 }
        } else if x == 1 {
            if y == 0 { self.t10 } else if y == 1 { self.t11 } else { self.t12 }
        } else {
            if y == 0 { self.t20 } else if y == 1 { self.t21 } else { self.t22 }
        }
    }

    pub fn set(&mut self, x: usize, y: usize, t: Tile)
        requires
            x < 3,
            y < 3,
        ensures
            *final(self) == (*old(self)).spec_set(x as int, y as int, t),
    {
        if x == 0 {
            if y == 0 { self.t00 = t; } else if y == 1 { self.t01 = t; } else { self.t02 = t; }
        } else if x == 1 {
            if y == 0 { self.t10 = t; } else if y == 1 { self.t11 = t; } else { self.t12 = t; }
        } else {
            if y == 0 { self.t20 = t; } else if y == 1 { self.t21 = t; } else { self.t22 = t; }
        }
    }

    /// Resets every cell to `Unplayed`.
    pub fn clear(&mut self)
        ensures
            *final(self) == Board::spec_empty(),
    {
        *self = Board::new();
    }

    /// Pure win/draw evaluation; a function of the grid alone.
    pub fn summary(&self) -> (r: GameSummary)
        ensures
            r == self.spec_summary(),
    {
        if self.row_is(0, Tile::Cross) || self.row_is(1, Tile::Cross) || self.row_is(2, Tile::Cross) {
            return GameSummary::CrossWin;
        }
        if self.row_is(0, Tile::Nought) || self.row_is(1, Tile::Nought) || self.row_is(2, Tile::Nought) {
            return GameSummary::NoughtWin;
        }
        if self.col_is(0, Tile::Cross) || self.col_is(1, Tile::Cross) || self.col_is(2, Tile::Cross) {
            return GameSummary::CrossWin;
        }
        if self.col_is(0, Tile::Nought) || self.col_is(1, Tile::Nought) || self.col_is(2, Tile::Nought) {
            return GameSummary::NoughtWin;
        }
        if self.t00 == Tile::Cross && self.t11 == Tile::Cross && self.t22 == Tile::Cross {
            return GameSummary::CrossWin;
        }
        if self.t00 == Tile::Nought && self.t11 == Tile::Nought && self.t22 == Tile::Nought {
            return GameSummary::NoughtWin;
        }
        if self.t02 == Tile::Cross && self.t11 == Tile::Cross && self.t20 == Tile::Cross {
            return GameSummary::CrossWin;
        }
        if self.t02 == Tile::Nought && self.t11 == Tile::Nought && self.t20 == Tile::Nought {
            return GameSummary::NoughtWin;
        }
        if self.t00 != Tile::Unplayed && self.t01 != Tile::Unplayed && self.t02 != Tile::Unplayed
            && self.t10 != Tile::Unplayed && self.t11 != Tile::Unplayed && self.t12 != Tile::Unplayed
            && self.t20 != Tile::Unplayed && self.t21 != Tile::Unplayed && self.t22 != Tile::Unplayed {
            return GameSummary::Tie;
        }
        GameSummary::InProgress
    }

    fn row_is(&self, x: usize, t: Tile) -> (r: bool)
        requires
            x < 3,
        ensures
            r == self.row_all(x as int, t),
    {
        self.get(x, 0) == t && self.get(x, 1) == t && self.get(x, 2) == t
    }

    fn col_is(&self, y: usize, t: Tile) -> (r: bool)
        requires
            y < 3,
        ensures
            r == self.col_all(y as int, t),
    {
        self.get(0, y) == t && self.get(1, y) == t && self.get(2, y) == t
    }
}

impl Default for Board {
    fn default() -> (b: Board)
        ensures
            b == Board::spec_empty(),
    {
        Board::new()
    }
}

/// On a grid still in progress, placing one symbol cannot produce complete
/// lines of both symbols at once: whatever line the other symbol would own
/// was already complete beforehand, which `InProgress` rules out.
pub proof fn lemma_no_two_winners_after_move(b: Board, x: int, y: int, t: Tile)
    requires
        b.spec_summary() == GameSummary::InProgress,
        0 <= x < 3,
        0 <= y < 3,
        t == Tile::Cross || t == Tile::Nought,
    ensures
        !(b.spec_set(x, y, t).wins(Tile::Cross) && b.spec_set(x, y, t).wins(Tile::Nought)),
{
}

} // verus!
