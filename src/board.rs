use vstd::prelude::*;

use crate::error::{MoveError, SelectError};
use crate::piece::{Piece, Player};
use crate::position::{on_board, Position};

verus! {

/// The contents of the board as a function of row and column: `None` for an
/// empty square and for every pair off the board.
pub type Grid = spec_fn(int, int) -> Option<Piece>;

/// `g` with the square at `r`, `c` holding `v`.
pub open spec fn put(g: Grid, r: int, c: int, v: Option<Piece>) -> Grid {
    |r2: int, c2: int| if r2 == r && c2 == c { v } else { g(r2, c2) }
}

/// `g` after whatever stands at the first square has moved to the second,
/// leaving the first empty and discarding what stood at the second.
pub open spec fn relocate(g: Grid, fr: int, fc: int, tr: int, tc: int) -> Grid {
    put(put(g, fr, fc, None), tr, tc, g(fr, fc))
}

/// Whether both squares hold pieces, of one color.
pub open spec fn same_side(a: Option<Piece>, b: Option<Piece>) -> bool {
    match (a, b) {
        (Some(x), Some(y)) => x.color_spec() == y.color_spec(),
        _ => false,
    }
}

/// A single square of the board, holding at most one piece.
#[derive(Debug, Clone, Copy, PartialEq, Eq, Structural)]
pub struct Tile {
    pub piece: Option<Piece>,
}

impl Tile {
    pub fn new(piece: Option<Piece>) -> (r: Self)
        ensures
            r.piece == piece,
    {
        Tile { piece }
    }

    pub fn insert(&mut self, piece: Option<Piece>)
        ensures
            final(self).piece == piece,
    {
        self.piece = piece;
    }
}

impl Default for Tile {
    fn default() -> (r: Self)
        ensures
            r.piece.is_none(),
    {
        Tile::new(None)
    }
}

/// The 8x8 grid of tiles. It owns every piece in play.
#[derive(Debug, Clone, Copy)]
pub struct Board {
    pub tiles: [[Tile; 8]; 8],
}

impl Board {
    /// What stands at row `r`, column `c`; `None` off the board.
    pub open spec fn at(self, r: int, c: int) -> Option<Piece> {
        if on_board(r, c) {
            self.tiles[r][c].piece
        } else {
            None
        }
    }

    pub open spec fn grid(self) -> Grid {
        |r: int, c: int| self.at(r, c)
    }

    /// An empty board.
    pub fn new() -> (r: Self)
        ensures
            forall|row: int, col: int| r.at(row, col).is_none(),
    {
        let empty = [Tile { piece: None }; 8];
        let b = Board { tiles: [empty; 8] };
        assert forall|row: int, col: int| b.at(row, col).is_none() by {
            if on_board(row, col) {
                assert(b.tiles[row] == empty);
            }
        }
        b
    }

    /// A copy of what stands at `position`.
    pub fn get_tile(&self, position: Position) -> (r: Option<Piece>)
        ensures
            r == self.at(position.r(), position.c()),
    {
        let row = position.row();
        let col = position.col();
        self.tiles[row][col].piece
    }

    /// Writes `piece` at `position` unconditionally, discarding what stood there.
    pub fn place(&mut self, position: Position, piece: Option<Piece>)
        ensures
            final(self).grid() == put(old(self).grid(), position.r(), position.c(), piece),
    {
        self.set_at(position.row(), position.col(), piece);
    }

    pub(crate) fn set_at(&mut self, r: usize, c: usize, piece: Option<Piece>)
        requires
            r < 8,
            c < 8,
        ensures
            final(self).grid() == put(old(self).grid(), r as int, c as int, piece),
    {
        self.tiles[r][c] = Tile { piece };
        assert(final(self).grid() =~= put(old(self).grid(), r as int, c as int, piece));
    }

    /// Moves whatever stands at `from` to `to`, leaving `from` empty and
    /// discarding what stood at `to`. No rule of the game is checked.
    pub fn raw_move(&mut self, from: Position, to: Position)
        ensures
            final(self).grid() == relocate(old(self).grid(), from.r(), from.c(), to.r(), to.c()),
    {
        let moving = self.get_tile(from);
        self.place(from, None);
        self.place(to, moving);
    }

    /// Whether the piece at `from` may land on `to` as far as occupation goes:
    /// `SquareOccupied` when both squares hold pieces of one color.
    pub fn can_move(&self, from: Position, to: Position) -> (r: Result<bool, MoveError>)
        ensures
            r == (if same_side(self.at(from.r(), from.c()), self.at(to.r(), to.c())) {
                Err(MoveError::SquareOccupied)
            } else {
                Ok(true)
            }),
    {
        let start = self.get_tile(from);
        let end = self.get_tile(to);
        match (start, end) {
            (Some(s), Some(e)) => {
                if s.color() == e.color() {
                    Err(MoveError::SquareOccupied)
                } else {
                    Ok(true)
                }
            },
            _ => Ok(true),
        }
    }

    /// Relocates the piece at `from` to `to` unless `can_move` refuses; the
    /// board is unchanged on refusal.
    pub fn move_piece(&mut self, from: Position, to: Position) -> (r: Result<(), MoveError>)
        ensures
            r == (if same_side(old(self).at(from.r(), from.c()), old(self).at(to.r(), to.c())) {
                Err(MoveError::SquareOccupied)
            } else {
                Ok(())
            }),
            r is Ok ==> final(self).grid() == relocate(old(self).grid(), from.r(), from.c(), to.r(), to.c()),
            r is Err ==> *final(self) == *old(self),
    {
        match self.can_move(from, to) {
            Err(e) => Err(e),
            Ok(_) => {
                self.raw_move(from, to);
                Ok(())
            },
        }
    }

    /// The piece at `position` if it belongs to `player`.
    pub fn select_piece(&self, position: Position, player: Player) -> (r: Result<Piece, SelectError>)
        ensures
            r == (match self.at(position.r(), position.c()) {
                None => Err(SelectError::NoPieceAtPosition),
                Some(p) => if p.color_spec() != player.color {
                    Err(SelectError::WrongColor)
                } else {
                    Ok(p)
                },
            }),
    {
        match self.get_tile(position) {
            None => Err(SelectError::NoPieceAtPosition),
            Some(p) => {
                if p.color() != player.color {
                    Err(SelectError::WrongColor)
                } else {
                    Ok(p)
                }
            },
        }
    }
}

} // verus!

verus! {

/// Moving a piece and then moving it back, with whatever it captured put
/// back on the square it took, restores the board exactly: a move transfers
/// the piece, never copies it, and loses nothing but the captured piece.
pub proof fn lemma_move_and_undo(g: Grid, fr: int, fc: int, tr: int, tc: int)
    requires
        !(fr == tr && fc == tc),
    ensures
        put(relocate(relocate(g, fr, fc, tr, tc), tr, tc, fr, fc), tr, tc, g(tr, tc)) == g,
{
    assert(put(relocate(relocate(g, fr, fc, tr, tc), tr, tc, fr, fc), tr, tc, g(tr, tc)) =~= g);
}

} // verus!
