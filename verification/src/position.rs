//! Row/column tracking for parse positions.
//!
//! A position starts at row 1, column 1. Consuming a codepoint advances the
//! column by one; consuming a newline instead moves to the start of the next
//! row.

use vstd::prelude::*;

verus! {

/// A (row, column) cursor into the input, as reported in errors.
#[derive(Debug, Clone, Copy, PartialEq, Eq, Structural)]
pub struct Position {
    pub row: usize,
    pub col: usize,
}

/// The mathematical model of a position: the same pair, unbounded.
pub struct PositionModel {
    pub row: int,
    pub col: int,
}

impl View for Position {
    type V = PositionModel;

    open spec fn view(&self) -> PositionModel {
        PositionModel { row: self.row as int, col: self.col as int }
    }
}

/// Where the cursor stands after consuming `c` at position `p`.
pub open spec fn pos_advance(p: PositionModel, c: char) -> PositionModel {
    if c == '\n' {
        PositionModel { row: p.row + 1, col: 1 }
    } else {
        PositionModel { row: p.row, col: p.col + 1 }
    }
}

/// The position every parse starts from.
pub open spec fn start_position() -> PositionModel {
    PositionModel { row: 1, col: 1 }
}

/// Where the cursor stands after consuming all of `s` from position `p`.
pub open spec fn pos_after(p: PositionModel, s: Seq<char>) -> PositionModel
    decreases s.len(),
{
    if s.len() == 0 {
        p
    } else {
        pos_after(pos_advance(p, s[0]), s.drop_first())
    }
}

/// Row and column never outgrow the number of codepoints consumed: starting
/// from (1, 1), each consumed codepoint raises each of them by at most one.
/// This is what keeps the executable counters from overflowing.
pub open spec fn pos_bounded(p: PositionModel, consumed: int) -> bool {
    &&& 1 <= p.row <= 1 + consumed
    &&& 1 <= p.col <= 1 + consumed
}

/// A newline moves the cursor to the first column of the next row; any other
/// codepoint only advances the column.
pub proof fn lemma_newline_resets_column(p: PositionModel, c: char)
    ensures
        c == '\n' ==> pos_advance(p, c) == (PositionModel { row: p.row + 1, col: 1 }),
        c != '\n' ==> pos_advance(p, c) == (PositionModel { row: p.row, col: p.col + 1 }),
{
}

impl Position {
    /// The position a parse starts from: row 1, column 1.
    pub fn start() -> (r: Position)
        ensures
            r@ == start_position(),
    {
        Position { row: 1, col: 1 }
    }

    /// Advance past one codepoint.
    pub fn advance(self, c: char) -> (r: Position)
        requires
            self.row < usize::MAX,
            self.col < usize::MAX,
        ensures
            r@ == pos_advance(self@, c),
    {
        if c == '\n' {
            Position { row: self.row + 1, col: 1 }
        } else {
            Position { row: self.row, col: self.col + 1 }
        }
    }
}

} // verus!
