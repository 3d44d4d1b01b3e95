use vstd::prelude::*;

use crate::board::{Board, Grid, same_side};
use crate::piece::{forward, opponent, pawn_row, Color, Piece};
use crate::position::{on_board, Position};

verus! {

/// Whether a piece sliding from row `r`, column `c` by steps of (`dr`, `dc`)
/// reaches the target within `n` steps: every square before the target must
/// be empty, and the target itself may hold anything.
pub open spec fn slide(g: Grid, r: int, c: int, dr: int, dc: int, tr: int, tc: int, n: nat) -> bool
    decreases n,
{
    n > 0 && on_board(r + dr, c + dc) && ((r + dr == tr && c + dc == tc) || (g(r + dr, c + dc).is_none()
        && slide(g, r + dr, c + dc, dr, dc, tr, tc, (n - 1) as nat)))
}

pub open spec fn diagonal(g: Grid, fr: int, fc: int, tr: int, tc: int) -> bool {
    slide(g, fr, fc, 1, 1, tr, tc, 8) || slide(g, fr, fc, 1, -1, tr, tc, 8) || slide(g, fr, fc, -1, 1, tr, tc, 8)
        || slide(g, fr, fc, -1, -1, tr, tc, 8)
}

pub open spec fn straight(g: Grid, fr: int, fc: int, tr: int, tc: int) -> bool {
    slide(g, fr, fc, 1, 0, tr, tc, 8) || slide(g, fr, fc, -1, 0, tr, tc, 8) || slide(g, fr, fc, 0, 1, tr, tc, 8)
        || slide(g, fr, fc, 0, -1, tr, tc, 8)
}

pub open spec fn knight_jump(fr: int, fc: int, tr: int, tc: int) -> bool {
    ((tr - fr == 1 || tr - fr == -1) && (tc - fc == 2 || tc - fc == -2)) || ((tr - fr == 2 || tr - fr
        == -2) && (tc - fc == 1 || tc - fc == -1))
}

pub open spec fn adjacent(fr: int, fc: int, tr: int, tc: int) -> bool {
    -1 <= tr - fr <= 1 && -1 <= tc - fc <= 1 && !(tr == fr && tc == fc)
}

/// Whether the piece at the first square attacks the second by geometry
/// alone: pawns diagonally forward, sliders up to the first occupied square.
/// What stands on the target does not matter.
pub open spec fn attacks(g: Grid, fr: int, fc: int, tr: int, tc: int) -> bool {
    on_board(tr, tc) && match g(fr, fc) {
        None => false,
        Some(Piece::Pawn(p)) => tr == fr + forward(p.color) && (tc == fc + 1 || tc == fc - 1),
        Some(Piece::Knight(_)) => knight_jump(fr, fc, tr, tc),
        Some(Piece::Bishop(_)) => diagonal(g, fr, fc, tr, tc),
        Some(Piece::Rook(_)) => straight(g, fr, fc, tr, tc),
        Some(Piece::Queen(_)) => diagonal(g, fr, fc, tr, tc) || straight(g, fr, fc, tr, tc),
        Some(Piece::King(_)) => adjacent(fr, fc, tr, tc),
    }
}

/// The square `r`, `c` holds a piece of `by` that attacks `tr`, `tc`.
pub open spec fn attacker(g: Grid, by: Color, r: int, c: int, tr: int, tc: int) -> bool {
    on_board(r, c) && (g(r, c) matches Some(p) && p.color_spec() == by && attacks(g, r, c, tr, tc))
}

/// Whether some piece of `by` attacks the square `tr`, `tc`.
pub open spec fn attacked(g: Grid, tr: int, tc: int, by: Color) -> bool {
    exists|r: int, c: int| #[trigger] attacker(g, by, r, c, tr, tc)
}

/// The square `r`, `c` holds a king of `color` that the other side attacks.
pub open spec fn king_in_danger(g: Grid, color: Color, r: int, c: int) -> bool {
    on_board(r, c) && (g(r, c) matches Some(Piece::King(k)) && k.color == color && attacked(
        g,
        r,
        c,
        opponent(color),
    ))
}

/// Whether a king of `color` is attacked.
pub open spec fn in_check(g: Grid, color: Color) -> bool {
    exists|r: int, c: int| #[trigger] king_in_danger(g, color, r, c)
}

/// The non-capturing and capturing steps of a pawn of `color`, en passant aside.
pub open spec fn pawn_step(g: Grid, color: Color, fr: int, fc: int, tr: int, tc: int) -> bool {
    let f = forward(color);
    (tc == fc && tr == fr + f && g(tr, tc).is_none()) || (tc == fc && fr == pawn_row(color) && tr == fr + 2
        * f && g(fr + f, fc).is_none() && g(tr, tc).is_none()) || (tr == fr + f && (tc == fc + 1 || tc
        == fc - 1) && (g(tr, tc) matches Some(q) && q.color_spec() != color))
}

/// Whether the piece at the first square can go to the second by the
/// movement of its kind, castling and en passant aside: it lands on an empty
/// square or captures a piece of the other color.
pub open spec fn plain_reach(g: Grid, fr: int, fc: int, tr: int, tc: int) -> bool {
    on_board(tr, tc) && !same_side(g(fr, fc), g(tr, tc)) && match g(fr, fc) {
        None => false,
        Some(Piece::Pawn(p)) => pawn_step(g, p.color, fr, fc, tr, tc),
        Some(_) => attacks(g, fr, fc, tr, tc),
    }
}

fn slides(b: &Board, fr: usize, fc: usize, dr: i64, dc: i64, tr: usize, tc: usize) -> (res: bool)
    requires
        fr < 8,
        fc < 8,
        tr < 8,
        tc < 8,
        -1 <= dr <= 1,
        -1 <= dc <= 1,
    ensures
        res == slide(b.grid(), fr as int, fc as int, dr as int, dc as int, tr as int, tc as int, 8),
{
    let ghost g = b.grid();
    let mut r: i64 = fr as i64;
    let mut c: i64 = fc as i64;
    let mut n: u64 = 8;
    while n > 0
        invariant
            on_board(r as int, c as int),
            tr < 8,
            tc < 8,
            -1 <= dr <= 1,
            -1 <= dc <= 1,
            g == b.grid(),
            n <= 8,
            slide(g, fr as int, fc as int, dr as int, dc as int, tr as int, tc as int, 8) == slide(
                g,
                r as int,
                c as int,
                dr as int,
                dc as int,
                tr as int,
                tc as int,
                n as nat,
            ),
        decreases n,
    {
        let nr = r + dr;
        let nc = c + dc;
        if nr < 0 || nr >= 8 || nc < 0 || nc >= 8 {
            return false;
        }
        if nr == tr as i64 && nc == tc as i64 {
            return true;
        }
        if b.tiles[nr as usize][nc as usize].piece.is_some() {
            return false;
        }
        r = nr;
        c = nc;
        n = n - 1;
    }
    false
}

fn diagonal_exec(b: &Board, fr: usize, fc: usize, tr: usize, tc: usize) -> (res: bool)
    requires
        fr < 8,
        fc < 8,
        tr < 8,
        tc < 8,
    ensures
        res == diagonal(b.grid(), fr as int, fc as int, tr as int, tc as int),
{
    slides(b, fr, fc, 1, 1, tr, tc) || slides(b, fr, fc, 1, -1, tr, tc) || slides(b, fr, fc, -1, 1, tr, tc)
        || slides(b, fr, fc, -1, -1, tr, tc)
}

fn straight_exec(b: &Board, fr: usize, fc: usize, tr: usize, tc: usize) -> (res: bool)
    requires
        fr < 8,
        fc < 8,
        tr < 8,
        tc < 8,
    ensures
        res == straight(b.grid(), fr as int, fc as int, tr as int, tc as int),
{
    slides(b, fr, fc, 1, 0, tr, tc) || slides(b, fr, fc, -1, 0, tr, tc) || slides(b, fr, fc, 0, 1, tr, tc)
        || slides(b, fr, fc, 0, -1, tr, tc)
}

pub(crate) fn attacks_at(b: &Board, fr: usize, fc: usize, tr: usize, tc: usize) -> (res: bool)
    requires
        fr < 8,
        fc < 8,
        tr < 8,
        tc < 8,
    ensures
        res == attacks(b.grid(), fr as int, fc as int, tr as int, tc as int),
{
    let (fr_i, fc_i, tr_i, tc_i) = (fr as i64, fc as i64, tr as i64, tc as i64);
    match b.tiles[fr][fc].piece {
        None => false,
        Some(Piece::Pawn(p)) => {
            let f: i64 = match p.color {
                Color::White => -1,
                Color::Black => 1,
            };
            tr_i == fr_i + f && (tc_i == fc_i + 1 || tc_i == fc_i - 1)
        },
        Some(Piece::Knight(_)) => {
            let dr = tr_i - fr_i;
            let dc = tc_i - fc_i;
            ((dr == 1 || dr == -1) && (dc == 2 || dc == -2)) || ((dr == 2 || dr == -2) && (dc == 1 || dc
                == -1))
        },
        Some(Piece::Bishop(_)) => diagonal_exec(b, fr, fc, tr, tc),
        Some(Piece::Rook(_)) => straight_exec(b, fr, fc, tr, tc),
        Some(Piece::Queen(_)) => diagonal_exec(b, fr, fc, tr, tc) || straight_exec(b, fr, fc, tr, tc),
        Some(Piece::King(_)) => {
            let dr = tr_i - fr_i;
            let dc = tc_i - fc_i;
            -1 <= dr && dr <= 1 && -1 <= dc && dc <= 1 && !(dr == 0 && dc == 0)
        },
    }
}

pub(crate) fn attacked_at(b: &Board, tr: usize, tc: usize, by: Color) -> (res: bool)
    requires
        tr < 8,
        tc < 8,
    ensures
        res == attacked(b.grid(), tr as int, tc as int, by),
{
    let ghost g = b.grid();
    let mut r: usize = 0;
    while r < 8
        invariant
            r <= 8,
            tr < 8,
            tc < 8,
            g == b.grid(),
            forall|r2: int, c2: int| 0 <= r2 < r ==> !#[trigger] attacker(g, by, r2, c2, tr as int, tc as int),
        decreases 8 - r,
    {
        let mut c: usize = 0;
        while c < 8
            invariant
                r < 8,
                c <= 8,
                tr < 8,
                tc < 8,
                g == b.grid(),
                forall|r2: int, c2: int| 0 <= r2 < r ==> !#[trigger] attacker(g, by, r2, c2, tr as int, tc as int),
                forall|c2: int| 0 <= c2 < c ==> !#[trigger] attacker(g, by, r as int, c2, tr as int, tc as int),
            decreases 8 - c,
        {
            if let Some(p) = b.tiles[r][c].piece {
                if p.color() == by && attacks_at(b, r, c, tr, tc) {
                    assert(attacker(g, by, r as int, c as int, tr as int, tc as int));
                    return true;
                }
            }
            c = c + 1;
        }
        r = r + 1;
    }
    false
}

/// Whether a king of `color` on `b` is attacked.
pub(crate) fn in_check_exec(b: &Board, color: Color) -> (res: bool)
    ensures
        res == in_check(b.grid(), color),
{
    let ghost g = b.grid();
    let mut r: usize = 0;
    while r < 8
        invariant
            r <= 8,
            g == b.grid(),
            forall|r2: int, c2: int| 0 <= r2 < r ==> !#[trigger] king_in_danger(g, color, r2, c2),
        decreases 8 - r,
    {
        let mut c: usize = 0;
        while c < 8
            invariant
                r < 8,
                c <= 8,
                g == b.grid(),
                forall|r2: int, c2: int| 0 <= r2 < r ==> !#[trigger] king_in_danger(g, color, r2, c2),
                forall|c2: int| 0 <= c2 < c ==> !#[trigger] king_in_danger(g, color, r as int, c2),
            decreases 8 - c,
        {
            if let Some(Piece::King(k)) = b.tiles[r][c].piece {
                if k.color == color && attacked_at(b, r, c, color.other()) {
                    assert(king_in_danger(g, color, r as int, c as int));
                    return true;
                }
            }
            c = c + 1;
        }
        r = r + 1;
    }
    false
}

impl Board {
    /// Whether the piece at `from` attacks `to` by geometry alone.
    pub fn attacks(&self, from: Position, to: Position) -> (r: bool)
        ensures
            r == attacks(self.grid(), from.r(), from.c(), to.r(), to.c()),
    {
        attacks_at(self, from.row(), from.col(), to.row(), to.col())
    }

    /// Whether some piece of `by_color` attacks `pos`.
    pub fn is_attacked(&self, pos: Position, by_color: Color) -> (r: bool)
        ensures
            r == attacked(self.grid(), pos.r(), pos.c(), by_color),
    {
        attacked_at(self, pos.row(), pos.col(), by_color)
    }

    /// Whether a king of `color` is attacked.
    pub fn is_check(&self, color: Color) -> (r: bool)
        ensures
            r == in_check(self.grid(), color),
    {
        in_check_exec(self, color)
    }
}

} // verus!

verus! {

fn pawn_step_exec(b: &Board, color: Color, fr: usize, fc: usize, tr: usize, tc: usize) -> (res: bool)
    requires
        fr < 8,
        fc < 8,
        tr < 8,
        tc < 8,
    ensures
        res == pawn_step(b.grid(), color, fr as int, fc as int, tr as int, tc as int),
{
    let (fr, fc, tr, tc) = (fr as i64, fc as i64, tr as i64, tc as i64);
    let (f, start): (i64, i64) = match color {
        Color::White => (-1, 6),
        Color::Black => (1, 1),
    };
    let target_empty = b.tiles[tr as usize][tc as usize].piece.is_none();
    if tc == fc && tr == fr + f {
        target_empty
    } else if tc == fc && fr == start && tr == fr + 2 * f {
        b.tiles[(fr + f) as usize][fc as usize].piece.is_none() && target_empty
    } else if tr == fr + f && (tc == fc + 1 || tc == fc - 1) {
        match b.tiles[tr as usize][tc as usize].piece {
            Some(q) => q.color() != color,
            None => false,
        }
    } else {
        false
    }
}

pub(crate) fn plain_reach_exec(b: &Board, fr: usize, fc: usize, tr: usize, tc: usize) -> (res: bool)
    requires
        fr < 8,
        fc < 8,
        tr < 8,
        tc < 8,
    ensures
        res == plain_reach(b.grid(), fr as int, fc as int, tr as int, tc as int),
{
    match b.tiles[fr][fc].piece {
        None => false,
        Some(p) => {
            if let Some(q) = b.tiles[tr][tc].piece {
                if q.color() == p.color() {
                    return false;
                }
            }
            match p {
                Piece::Pawn(pw) => pawn_step_exec(b, pw.color, fr, fc, tr, tc),
                _ => attacks_at(b, fr, fc, tr, tc),
            }
        },
    }
}

} // verus!

verus! {

/// A slide only moves away from its start: along a direction that does not
/// change the row (column) it ends on the same row (column), and otherwise
/// on the side that the direction points to.
pub proof fn lemma_slide_direction(g: Grid, r: int, c: int, dr: int, dc: int, tr: int, tc: int, n: nat)
    requires
        slide(g, r, c, dr, dc, tr, tc, n),
    ensures
        dr == 0 ==> tr == r,
        dr > 0 ==> tr > r,
        dr < 0 ==> tr < r,
        dc == 0 ==> tc == c,
        dc > 0 ==> tc > c,
        dc < 0 ==> tc < c,
    decreases n,
{
    if !(r + dr == tr && c + dc == tc) {
        lemma_slide_direction(g, r + dr, c + dc, dr, dc, tr, tc, (n - 1) as nat);
    }
}

} // verus!
