use vstd::prelude::*;

use crate::error::SelectError;

verus! {

/// A square of the 8x8 board. Row 0 is Black's back rank, row 7 White's.
/// A value always lies on the board: the only constructor checks the bounds.
#[derive(Debug, Clone, Copy, PartialEq, Eq, Structural)]
pub struct Position {
    row: usize,
    col: usize,
}

impl Position {
    #[verifier::type_invariant]
    closed spec fn inv(self) -> bool {
        self.row < 8 && self.col < 8
    }

    /// The row of the square, as a mathematical integer.
    pub closed spec fn r(self) -> int {
        self.row as int
    }

    /// The column of the square, as a mathematical integer.
    pub closed spec fn c(self) -> int {
        self.col as int
    }

    /// The square at `row` and `col`, or `OutsideBoard` when either is 8 or more.
    pub fn new(row: usize, col: usize) -> (r: Result<Self, SelectError>)
        ensures
            (row < 8 && col < 8) <==> r.is_ok(),
            r matches Ok(p) ==> p.r() == row && p.c() == col,
            r matches Err(e) ==> e == SelectError::OutsideBoard,
    {
        if row >= 8 || col >= 8 {
            return Err(SelectError::OutsideBoard);
        }
        Ok(Position { row, col })
    }

    pub fn row(&self) -> (r: usize)
        ensures
            r == self.r(),
            r < 8,
    {
        proof {
            use_type_invariant(self);
        }
        self.row
    }

    pub fn col(&self) -> (r: usize)
        ensures
            r == self.c(),
            r < 8,
    {
        proof {
            use_type_invariant(self);
        }
        self.col
    }
}

/// Whether row `r` and column `c` name a square of the board.
pub open spec fn on_board(r: int, c: int) -> bool {
    0 <= r < 8 && 0 <= c < 8
}

} // verus!
