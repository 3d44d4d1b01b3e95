use vstd::prelude::*;

use crate::board::{put, Board, Grid};
use crate::error::{GameError, MoveError, SelectError};
use crate::piece::{forward, fresh, home_row, last_row, opponent, Color, King, Piece, PieceType, Rook};
use crate::position::{on_board, Position};
use crate::rules::{attacked, attacked_at, in_check, in_check_exec, plain_reach, plain_reach_exec};

verus! {

/// What a legal move turned out to be.
#[derive(Debug, Clone, Copy, PartialEq, Eq, Structural)]
pub enum MoveKind {
    Normal,
    Capture,
    EnPassant,
    CastleKingside,
    CastleQueenside,
    Promotion,
}

/// The four castling rights; each is lost for good once its king or rook
/// moves or its rook's square is captured on.
#[derive(Debug, Clone, Copy, PartialEq, Eq, Structural)]
pub struct CastlingRights {
    pub white_kingside: bool,
    pub white_queenside: bool,
    pub black_kingside: bool,
    pub black_queenside: bool,
}

/// A game in progress: the board and everything besides it that decides
/// which moves are legal.
#[derive(Debug, Clone, Copy)]
pub struct GameState {
    pub board: Board,
    pub side_to_move: Color,
    pub castling: CastlingRights,
    /// The square a pawn passed over with a two-square advance on the
    /// previous move, if it made one.
    pub en_passant_target: Option<Position>,
    pub halfmove_clock: u32,
    pub fullmove_number: u32,
}

pub open spec fn has_right(s: GameState, color: Color, kingside: bool) -> bool {
    match (color, kingside) {
        (Color::White, true) => s.castling.white_kingside,
        (Color::White, false) => s.castling.white_queenside,
        (Color::Black, true) => s.castling.black_kingside,
        (Color::Black, false) => s.castling.black_queenside,
    }
}

/// Whether the en passant target of `s` is the square `r`, `c`.
pub open spec fn ep_at(s: GameState, r: int, c: int) -> bool {
    s.en_passant_target matches Some(p) && p.r() == r && p.c() == c
}

/// The king of `p` tries to go two squares sideways from its home square.
pub open spec fn castle_attempt(p: Piece, fr: int, fc: int, tr: int, tc: int) -> bool {
    p is King && fr == home_row(p.color_spec()) && fc == 4 && tr == fr && (tc == 6 || tc == 2)
}

/// Whether `color` may castle on the given side in `s`: the right is held,
/// king and rook stand unmoved on their home squares, the squares between
/// them are empty, and the king neither stands on, passes nor lands on an
/// attacked square.
pub open spec fn castle_ok(s: GameState, color: Color, kingside: bool) -> bool {
    let g = s.board.grid();
    let h = home_row(color);
    let opp = opponent(color);
    &&& has_right(s, color, kingside)
    &&& g(h, 4) == Some(Piece::King(King { color, has_moved: false }))
    &&& g(h, if kingside { 7 } else { 0 }) == Some(Piece::Rook(Rook { color, has_moved: false }))
    &&& if kingside {
        g(h, 5).is_none() && g(h, 6).is_none()
    } else {
        g(h, 1).is_none() && g(h, 2).is_none() && g(h, 3).is_none()
    }
    &&& !attacked(g, h, 4, opp)
    &&& !attacked(g, h, if kingside { 5 } else { 3 }, opp)
    &&& !attacked(g, h, if kingside { 6 } else { 2 }, opp)
}

/// The pawn `p` steps diagonally forward onto an empty square.
pub open spec fn ep_attempt(g: Grid, p: Piece, fr: int, fc: int, tr: int, tc: int) -> bool {
    p is Pawn && tr == fr + forward(p.color_spec()) && (tc == fc + 1 || tc == fc - 1) && g(tr, tc).is_none()
}

/// En passant is allowed: the target is the en passant square and beside the
/// moving pawn stands the opposing pawn that just passed over it.
pub open spec fn ep_ok(s: GameState, color: Color, fr: int, fc: int, tr: int, tc: int) -> bool {
    ep_at(s, tr, tc) && (s.board.grid()(fr, tc) matches Some(Piece::Pawn(q)) && q.color != color)
}

/// The move would bring the pawn `p` to its last row.
pub open spec fn promotes(p: Piece, tr: int) -> bool {
    p is Pawn && tr == last_row(p.color_spec())
}

/// The kind of the move by the piece `p` at the first square, judged by
/// movement alone, or the error that its movement gives.
pub open spec fn shape(s: GameState, p: Piece, fr: int, fc: int, tr: int, tc: int) -> Result<MoveKind, MoveError> {
    let g = s.board.grid();
    if castle_attempt(p, fr, fc, tr, tc) {
        if castle_ok(s, p.color_spec(), tc == 6) {
            Ok(if tc == 6 { MoveKind::CastleKingside } else { MoveKind::CastleQueenside })
        } else {
            Err(MoveError::IllegalCastle)
        }
    } else if ep_attempt(g, p, fr, fc, tr, tc) {
        if ep_ok(s, p.color_spec(), fr, fc, tr, tc) {
            Ok(MoveKind::EnPassant)
        } else {
            Err(MoveError::IllegalEnPassant)
        }
    } else if plain_reach(g, fr, fc, tr, tc) {
        Ok(
            if promotes(p, tr) {
                MoveKind::Promotion
            } else if g(tr, tc).is_some() {
                MoveKind::Capture
            } else {
                MoveKind::Normal
            },
        )
    } else {
        Err(MoveError::InvalidMove)
    }
}

/// The error that the promotion choice gives, if any: a pawn reaching its
/// last row needs a knight, bishop, rook or queen; any other move needs none.
pub open spec fn promotion_error(p: Piece, tr: int, promotion: Option<PieceType>) -> Option<MoveError> {
    if promotes(p, tr) {
        match promotion {
            None => Some(MoveError::MissingPromotion),
            Some(t) => if t == PieceType::Pawn || t == PieceType::King {
                Some(MoveError::IllegalPromotion)
            } else {
                None
            },
        }
    } else if promotion is Some {
        Some(MoveError::IllegalPromotion)
    } else {
        None
    }
}

/// What stands on the target square after the piece `p` made the move.
pub open spec fn landed(p: Piece, fr: int, tr: int, kind: MoveKind, promotion: Option<PieceType>) -> Piece {
    if kind == MoveKind::Promotion {
        fresh(promotion->Some_0, p.color_spec()).moved_spec(false)
    } else {
        p.moved_spec(tr - fr == 2 || tr - fr == -2)
    }
}

/// The board after the piece at the first square made a move of `kind`:
/// the piece is carried over (or promoted), an en passant capture also
/// clears the captured pawn's square, a castle also carries the rook.
pub open spec fn after_grid(
    s: GameState,
    fr: int,
    fc: int,
    tr: int,
    tc: int,
    kind: MoveKind,
    promotion: Option<PieceType>,
) -> Grid {
    let g = s.board.grid();
    let p = g(fr, fc)->Some_0;
    let base = put(put(g, fr, fc, None), tr, tc, Some(landed(p, fr, tr, kind, promotion)));
    match kind {
        MoveKind::EnPassant => put(base, fr, tc, None),
        MoveKind::CastleKingside => put(put(base, fr, 7, None), fr, 5, Some(g(fr, 7)->Some_0.moved_spec(false))),
        MoveKind::CastleQueenside => put(put(base, fr, 0, None), fr, 3, Some(g(fr, 0)->Some_0.moved_spec(false))),
        _ => base,
    }
}

/// The result of asking whether the side to move may move the piece at the
/// first square to the second with the given promotion choice.
pub open spec fn legal_result(
    s: GameState,
    fr: int,
    fc: int,
    tr: int,
    tc: int,
    promotion: Option<PieceType>,
) -> Result<MoveKind, GameError> {
    let g = s.board.grid();
    match g(fr, fc) {
        None => Err(GameError::Select(SelectError::NoPieceAtPosition)),
        Some(p) => if p.color_spec() != s.side_to_move {
            Err(GameError::Select(SelectError::WrongColor))
        } else if g(tr, tc) matches Some(q) && q.color_spec() == p.color_spec() {
            Err(GameError::Move(MoveError::SquareOccupied))
        } else {
            match shape(s, p, fr, fc, tr, tc) {
                Err(e) => Err(GameError::Move(e)),
                Ok(kind) => match promotion_error(p, tr, promotion) {
                    Some(e) => Err(GameError::Move(e)),
                    None => if in_check(after_grid(s, fr, fc, tr, tc, kind, promotion), p.color_spec()) {
                        Err(GameError::Move(MoveError::MovesIntoCheck))
                    } else {
                        Ok(kind)
                    },
                },
            }
        },
    }
}

} // verus!

verus! {

fn home_row_exec(color: Color) -> (r: usize)
    ensures
        r == home_row(color),
{
    match color {
        Color::White => 7,
        Color::Black => 0,
    }
}

fn last_row_exec(color: Color) -> (r: usize)
    ensures
        r == last_row(color),
{
    match color {
        Color::White => 0,
        Color::Black => 7,
    }
}

impl GameState {
    fn has_right_exec(&self, color: Color, kingside: bool) -> (r: bool)
        ensures
            r == has_right(*self, color, kingside),
    {
        match (color, kingside) {
            (Color::White, true) => self.castling.white_kingside,
            (Color::White, false) => self.castling.white_queenside,
            (Color::Black, true) => self.castling.black_kingside,
            (Color::Black, false) => self.castling.black_queenside,
        }
    }

    fn castle_ok_exec(&self, color: Color, kingside: bool) -> (r: bool)
        ensures
            r == castle_ok(*self, color, kingside),
    {
        let b = &self.board;
        let h = home_row_exec(color);
        let opp = color.other();
        if !self.has_right_exec(color, kingside) {
            return false;
        }
        match b.tiles[h][4].piece {
            Some(Piece::King(k)) => {
                if k.color != color || k.has_moved {
                    return false;
                }
            },
            _ => return false,
        }
        let rook_col: usize = if kingside { 7 } else { 0 };
        match b.tiles[h][rook_col].piece {
            Some(Piece::Rook(rk)) => {
                if rk.color != color || rk.has_moved {
                    return false;
                }
            },
            _ => return false,
        }
        let between_empty = if kingside {
            b.tiles[h][5].piece.is_none() && b.tiles[h][6].piece.is_none()
        } else {
            b.tiles[h][1].piece.is_none() && b.tiles[h][2].piece.is_none() && b.tiles[h][3].piece.is_none()
        };
        if !between_empty {
            return false;
        }
        let pass: usize = if kingside { 5 } else { 3 };
        let land: usize = if kingside { 6 } else { 2 };
        !attacked_at(b, h, 4, opp) && !attacked_at(b, h, pass, opp) && !attacked_at(b, h, land, opp)
    }

    fn ep_at_exec(&self, r: usize, c: usize) -> (res: bool)
        ensures
            res == ep_at(*self, r as int, c as int),
    {
        match self.en_passant_target {
            Some(p) => p.row() == r && p.col() == c,
            None => false,
        }
    }

    fn shape_exec(&self, p: Piece, fr: usize, fc: usize, tr: usize, tc: usize) -> (r: Result<MoveKind, MoveError>)
        requires
            fr < 8,
            fc < 8,
            tr < 8,
            tc < 8,
            self.board.grid()(fr as int, fc as int) == Some(p),
        ensures
            r == shape(*self, p, fr as int, fc as int, tr as int, tc as int),
    {
        let b = &self.board;
        let color = p.color();
        let is_king = match p {
            Piece::King(_) => true,
            _ => false,
        };
        let is_pawn = match p {
            Piece::Pawn(_) => true,
            _ => false,
        };
        if is_king && fr == home_row_exec(color) && fc == 4 && tr == fr && (tc == 6 || tc == 2) {
            if self.castle_ok_exec(color, tc == 6) {
                return Ok(if tc == 6 { MoveKind::CastleKingside } else { MoveKind::CastleQueenside });
            } else {
                return Err(MoveError::IllegalCastle);
            }
        }
        let forward_row: bool = match color {
            Color::White => fr >= 1 && tr == fr - 1,
            Color::Black => tr == fr + 1,
        };
        let beside: bool = tc == fc + 1 || (fc >= 1 && tc == fc - 1);
        let target_empty = b.tiles[tr][tc].piece.is_none();
        if is_pawn && forward_row && beside && target_empty {
            let captured_ok = match b.tiles[fr][tc].piece {
                Some(Piece::Pawn(q)) => q.color != color,
                _ => false,
            };
            if self.ep_at_exec(tr, tc) && captured_ok {
                return Ok(MoveKind::EnPassant);
            } else {
                return Err(MoveError::IllegalEnPassant);
            }
        }
        if plain_reach_exec(b, fr, fc, tr, tc) {
            if is_pawn && tr == last_row_exec(color) {
                Ok(MoveKind::Promotion)
            } else if !target_empty {
                Ok(MoveKind::Capture)
            } else {
                Ok(MoveKind::Normal)
            }
        } else {
            Err(MoveError::InvalidMove)
        }
    }
}

fn promotion_error_exec(p: Piece, tr: usize, promotion: Option<PieceType>) -> (r: Option<MoveError>)
    ensures
        r == promotion_error(p, tr as int, promotion),
{
    let promotes = match p {
        Piece::Pawn(pw) => tr == last_row_exec(pw.color),
        _ => false,
    };
    if promotes {
        match promotion {
            None => Some(MoveError::MissingPromotion),
            Some(PieceType::Pawn) | Some(PieceType::King) => Some(MoveError::IllegalPromotion),
            Some(_) => None,
        }
    } else if promotion.is_some() {
        Some(MoveError::IllegalPromotion)
    } else {
        None
    }
}

} // verus!

verus! {

impl GameState {
    /// A copy of the board with the move of `kind` made on it.
    fn simulate(
        &self,
        fr: usize,
        fc: usize,
        tr: usize,
        tc: usize,
        kind: MoveKind,
        promotion: Option<PieceType>,
    ) -> (b: Board)
        requires
            fr < 8,
            fc < 8,
            tr < 8,
            tc < 8,
            self.board.grid()(fr as int, fc as int) is Some,
            kind == MoveKind::Promotion ==> promotion is Some,
            kind == MoveKind::CastleKingside ==> self.board.grid()(fr as int, 7) is Some,
            kind == MoveKind::CastleQueenside ==> self.board.grid()(fr as int, 0) is Some,
        ensures
            b.grid() == after_grid(*self, fr as int, fc as int, tr as int, tc as int, kind, promotion),
    {
        let mut b = self.board;
        let p = match b.tiles[fr][fc].piece {
            Some(p) => p,
            None => return b,
        };
        let landed = match (kind, promotion) {
            (MoveKind::Promotion, Some(t)) => Piece::new(t, p.color()).moved(false),
            _ => p.moved(tr == fr + 2 || fr == tr + 2),
        };
        b.set_at(fr, fc, None);
        b.set_at(tr, tc, Some(landed));
        match kind {
            MoveKind::EnPassant => {
                b.set_at(fr, tc, None);
            },
            MoveKind::CastleKingside => {
                if let Some(rook) = self.board.tiles[fr][7].piece {
                    b.set_at(fr, 7, None);
                    b.set_at(fr, 5, Some(rook.moved(false)));
                }
            },
            MoveKind::CastleQueenside => {
                if let Some(rook) = self.board.tiles[fr][0].piece {
                    b.set_at(fr, 0, None);
                    b.set_at(fr, 3, Some(rook.moved(false)));
                }
            },
            _ => {},
        }
        b
    }

    fn legal_at(&self, fr: usize, fc: usize, tr: usize, tc: usize, promotion: Option<PieceType>) -> (r: Result<
        MoveKind,
        GameError,
    >)
        requires
            fr < 8,
            fc < 8,
            tr < 8,
            tc < 8,
        ensures
            r == legal_result(*self, fr as int, fc as int, tr as int, tc as int, promotion),
    {
        let p = match self.board.tiles[fr][fc].piece {
            None => return Err(GameError::Select(SelectError::NoPieceAtPosition)),
            Some(p) => p,
        };
        let color = p.color();
        if color != self.side_to_move {
            return Err(GameError::Select(SelectError::WrongColor));
        }
        if let Some(q) = self.board.tiles[tr][tc].piece {
            if q.color() == color {
                return Err(GameError::Move(MoveError::SquareOccupied));
            }
        }
        let kind = match self.shape_exec(p, fr, fc, tr, tc) {
            Err(e) => return Err(GameError::Move(e)),
            Ok(kind) => kind,
        };
        if let Some(e) = promotion_error_exec(p, tr, promotion) {
            return Err(GameError::Move(e));
        }
        let scratch = self.simulate(fr, fc, tr, tc, kind, promotion);
        if in_check_exec(&scratch, color) {
            Err(GameError::Move(MoveError::MovesIntoCheck))
        } else {
            Ok(kind)
        }
    }

    /// Whether the side to move may move the piece at `from` to `to` with the
    /// given promotion choice, and if so what kind of move it is. The state is
    /// only read.
    pub fn is_legal(&self, from: Position, to: Position, promotion: Option<PieceType>) -> (r: Result<
        MoveKind,
        GameError,
    >)
        ensures
            r == legal_result(*self, from.r(), from.c(), to.r(), to.c(), promotion),
    {
        self.legal_at(from.row(), from.col(), to.row(), to.col(), promotion)
    }
}

} // verus!

verus! {

/// `x + 1`, held at the largest value.
pub open spec fn sat_inc(x: u32) -> u32 {
    if x < u32::MAX {
        (x + 1) as u32
    } else {
        x
    }
}

/// The move from the first square to the second starts or ends on `r`, `c`.
pub open spec fn touches(fr: int, fc: int, tr: int, tc: int, r: int, c: int) -> bool {
    (fr == r && fc == c) || (tr == r && tc == c)
}

/// The castling rights after a move between the two squares: a move from or
/// onto a king's or rook's home square revokes the rights that depend on it.
pub open spec fn rights_after(c: CastlingRights, fr: int, fc: int, tr: int, tc: int) -> CastlingRights {
    CastlingRights {
        white_kingside: c.white_kingside && !touches(fr, fc, tr, tc, 7, 4) && !touches(fr, fc, tr, tc, 7, 7),
        white_queenside: c.white_queenside && !touches(fr, fc, tr, tc, 7, 4) && !touches(fr, fc, tr, tc, 7, 0),
        black_kingside: c.black_kingside && !touches(fr, fc, tr, tc, 0, 4) && !touches(fr, fc, tr, tc, 0, 7),
        black_queenside: c.black_queenside && !touches(fr, fc, tr, tc, 0, 4) && !touches(fr, fc, tr, tc, 0, 0),
    }
}

/// `t` is the state that follows `s` once the legal move of `kind` between
/// the two squares is made.
pub open spec fn applied(
    s: GameState,
    t: GameState,
    fr: int,
    fc: int,
    tr: int,
    tc: int,
    promotion: Option<PieceType>,
    kind: MoveKind,
) -> bool {
    let g = s.board.grid();
    let p = g(fr, fc)->Some_0;
    &&& t.board.grid() == after_grid(s, fr, fc, tr, tc, kind, promotion)
    &&& t.side_to_move == opponent(s.side_to_move)
    &&& t.castling == rights_after(s.castling, fr, fc, tr, tc)
    &&& if p is Pawn && (tr - fr == 2 || tr - fr == -2) {
        ep_at(t, fr + forward(p.color_spec()), fc)
    } else {
        t.en_passant_target is None
    }
    &&& t.halfmove_clock == if p is Pawn || g(tr, tc) is Some {
        0
    } else {
        sat_inc(s.halfmove_clock)
    }
    &&& t.fullmove_number == if s.side_to_move == Color::Black {
        sat_inc(s.fullmove_number)
    } else {
        s.fullmove_number
    }
}

fn sat_inc_exec(x: u32) -> (r: u32)
    ensures
        r == sat_inc(x),
{
    if x < u32::MAX {
        x + 1
    } else {
        x
    }
}

fn touches_exec(fr: usize, fc: usize, tr: usize, tc: usize, r: usize, c: usize) -> (res: bool)
    ensures
        res == touches(fr as int, fc as int, tr as int, tc as int, r as int, c as int),
{
    (fr == r && fc == c) || (tr == r && tc == c)
}

fn rights_after_exec(c: CastlingRights, fr: usize, fc: usize, tr: usize, tc: usize) -> (r: CastlingRights)
    ensures
        r == rights_after(c, fr as int, fc as int, tr as int, tc as int),
{
    CastlingRights {
        white_kingside: c.white_kingside && !touches_exec(fr, fc, tr, tc, 7, 4) && !touches_exec(fr, fc, tr, tc, 7, 7),
        white_queenside: c.white_queenside && !touches_exec(fr, fc, tr, tc, 7, 4) && !touches_exec(fr, fc, tr, tc, 7, 0),
        black_kingside: c.black_kingside && !touches_exec(fr, fc, tr, tc, 0, 4) && !touches_exec(fr, fc, tr, tc, 0, 7),
        black_queenside: c.black_queenside && !touches_exec(fr, fc, tr, tc, 0, 4) && !touches_exec(fr, fc, tr, tc, 0, 0),
    }
}

impl GameState {
    /// Makes the move if it is legal and reports its kind; on any error the
    /// state is left exactly as it was.
    pub fn attempt_move(&mut self, from: Position, to: Position, promotion: Option<PieceType>) -> (r: Result<
        MoveKind,
        GameError,
    >)
        ensures
            r == legal_result(*old(self), from.r(), from.c(), to.r(), to.c(), promotion),
            r matches Ok(kind) ==> applied(*old(self), *final(self), from.r(), from.c(), to.r(), to.c(), promotion, kind),
            r is Err ==> *final(self) == *old(self),
    {
        let (fr, fc, tr, tc) = (from.row(), from.col(), to.row(), to.col());
        let kind = match self.legal_at(fr, fc, tr, tc, promotion) {
            Err(e) => return Err(e),
            Ok(kind) => kind,
        };
        let p = match self.board.tiles[fr][fc].piece {
            Some(p) => p,
            None => return Ok(kind),
        };
        let color = p.color();
        let is_pawn = match p {
            Piece::Pawn(_) => true,
            _ => false,
        };
        let resets = is_pawn || self.board.tiles[tr][tc].piece.is_some();
        let new_board = self.simulate(fr, fc, tr, tc, kind, promotion);
        let target = if is_pawn && (tr == fr + 2 || fr == tr + 2) {
            let mid = match color {
                Color::White => fr - 1,
                Color::Black => fr + 1,
            };
            match Position::new(mid, fc) {
                Ok(pos) => Some(pos),
                Err(_) => None,
            }
        } else {
            None
        };
        let castling = rights_after_exec(self.castling, fr, fc, tr, tc);
        let halfmove = if resets { 0 } else { sat_inc_exec(self.halfmove_clock) };
        let fullmove = match self.side_to_move {
            Color::Black => sat_inc_exec(self.fullmove_number),
            Color::White => self.fullmove_number,
        };
        self.board = new_board;
        self.side_to_move = color.other();
        self.castling = castling;
        self.en_passant_target = target;
        self.halfmove_clock = halfmove;
        self.fullmove_number = fullmove;
        Ok(kind)
    }
}

} // verus!

verus! {

/// The kind of piece that starts on column `c` of a back rank.
pub open spec fn back_rank(c: int) -> PieceType {
    if c == 0 || c == 7 {
        PieceType::Rook
    } else if c == 1 || c == 6 {
        PieceType::Knight
    } else if c == 2 || c == 5 {
        PieceType::Bishop
    } else if c == 3 {
        PieceType::Queen
    } else {
        PieceType::King
    }
}

/// What stands at `r`, `c` in the standard starting position.
pub open spec fn initial_at(r: int, c: int) -> Option<Piece> {
    if !on_board(r, c) {
        None
    } else if r == 0 {
        Some(fresh(back_rank(c), Color::Black))
    } else if r == 1 {
        Some(fresh(PieceType::Pawn, Color::Black))
    } else if r == 6 {
        Some(fresh(PieceType::Pawn, Color::White))
    } else if r == 7 {
        Some(fresh(back_rank(c), Color::White))
    } else {
        None
    }
}

/// The move between the two squares with the given promotion choice is legal.
pub open spec fn legal(s: GameState, fr: int, fc: int, tr: int, tc: int, promotion: Option<PieceType>) -> bool {
    on_board(fr, fc) && on_board(tr, tc) && legal_result(s, fr, fc, tr, tc, promotion) is Ok
}

pub open spec fn legal_from(s: GameState, fr: int, fc: int) -> bool {
    exists|tr: int, tc: int, promotion: Option<PieceType>| #[trigger] legal(s, fr, fc, tr, tc, promotion)
}

/// The side to move has at least one legal move.
pub open spec fn has_legal_move(s: GameState) -> bool {
    exists|fr: int, fc: int| #[trigger] legal_from(s, fr, fc) && on_board(fr, fc)
}

pub open spec fn checkmate(s: GameState) -> bool {
    in_check(s.board.grid(), s.side_to_move) && !has_legal_move(s)
}

pub open spec fn stalemate(s: GameState) -> bool {
    !in_check(s.board.grid(), s.side_to_move) && !has_legal_move(s)
}

fn back_rank_exec(c: usize) -> (t: PieceType)
    ensures
        t == back_rank(c as int),
{
    if c == 0 || c == 7 {
        PieceType::Rook
    } else if c == 1 || c == 6 {
        PieceType::Knight
    } else if c == 2 || c == 5 {
        PieceType::Bishop
    } else if c == 3 {
        PieceType::Queen
    } else {
        PieceType::King
    }
}

impl GameState {
    /// The standard starting position, White to move, every castling right
    /// held, no en passant target.
    pub fn initial() -> (s: GameState)
        ensures
            forall|r: int, c: int| s.board.at(r, c) == initial_at(r, c),
            s.side_to_move == Color::White,
            s.castling == (CastlingRights {
                white_kingside: true,
                white_queenside: true,
                black_kingside: true,
                black_queenside: true,
            }),
            s.en_passant_target is None,
            s.halfmove_clock == 0,
            s.fullmove_number == 1,
    {
        let mut b = Board::new();
        let mut c: usize = 0;
        while c < 8
            invariant
                c <= 8,
                forall|r: int, c2: int| b.grid()(r, c2) == (if c2 < c { initial_at(r, c2) } else { None }),
            decreases 8 - c,
        {
            let t = back_rank_exec(c);
            b.set_at(0, c, Some(Piece::new(t, Color::Black)));
            b.set_at(1, c, Some(Piece::new(PieceType::Pawn, Color::Black)));
            b.set_at(6, c, Some(Piece::new(PieceType::Pawn, Color::White)));
            b.set_at(7, c, Some(Piece::new(t, Color::White)));
            c = c + 1;
        }
        assert forall|r: int, c: int| b.at(r, c) == initial_at(r, c) by {
            assert(b.grid()(r, c) == b.at(r, c));
        }
        GameState {
            board: b,
            side_to_move: Color::White,
            castling: CastlingRights {
                white_kingside: true,
                white_queenside: true,
                black_kingside: true,
                black_queenside: true,
            },
            en_passant_target: None,
            halfmove_clock: 0,
            fullmove_number: 1,
        }
    }

    pub fn side_to_move(&self) -> (r: Color)
        ensures
            r == self.side_to_move,
    {
        self.side_to_move
    }

    /// A copy of what stands at `position`.
    pub fn tile_at(&self, position: Position) -> (r: Option<Piece>)
        ensures
            r == self.board.at(position.r(), position.c()),
    {
        self.board.get_tile(position)
    }

    /// Whether a king of `color` is attacked.
    pub fn is_check(&self, color: Color) -> (r: bool)
        ensures
            r == in_check(self.board.grid(), color),
    {
        in_check_exec(&self.board, color)
    }

    fn legal_any_promotion(&self, fr: usize, fc: usize, tr: usize, tc: usize) -> (r: bool)
        requires
            fr < 8,
            fc < 8,
            tr < 8,
            tc < 8,
        ensures
            r == exists|promotion: Option<PieceType>| #[trigger] legal(*self, fr as int, fc as int, tr as int, tc as int, promotion),
    {
        let choices: [Option<PieceType>; 7] = [
            None,
            Some(PieceType::Pawn),
            Some(PieceType::Knight),
            Some(PieceType::Bishop),
            Some(PieceType::Queen),
            Some(PieceType::King),
            Some(PieceType::Rook),
        ];
        let mut i: usize = 0;
        while i < 7
            invariant
                i <= 7,
                fr < 8,
                fc < 8,
                tr < 8,
                tc < 8,
                choices@ == seq![
                    None,
                    Some(PieceType::Pawn),
                    Some(PieceType::Knight),
                    Some(PieceType::Bishop),
                    Some(PieceType::Queen),
                    Some(PieceType::King),
                    Some(PieceType::Rook),
                ],
                forall|j: int| 0 <= j < i ==> !legal(*self, fr as int, fc as int, tr as int, tc as int, #[trigger] choices@[j]),
            decreases 7 - i,
        {
            if self.legal_at(fr, fc, tr, tc, choices[i]).is_ok() {
                assert(legal(*self, fr as int, fc as int, tr as int, tc as int, choices@[i as int]));
                return true;
            }
            i = i + 1;
        }
        assert forall|promotion: Option<PieceType>| !#[trigger] legal(*self, fr as int, fc as int, tr as int, tc as int, promotion) by {
            let j: int = match promotion {
                None => 0,
                Some(PieceType::Pawn) => 1,
                Some(PieceType::Knight) => 2,
                Some(PieceType::Bishop) => 3,
                Some(PieceType::Queen) => 4,
                Some(PieceType::King) => 5,
                Some(PieceType::Rook) => 6,
            };
            assert(choices@[j] == promotion);
        }
        false
    }

    fn legal_from_exec(&self, fr: usize, fc: usize) -> (r: bool)
        requires
            fr < 8,
            fc < 8,
        ensures
            r == legal_from(*self, fr as int, fc as int),
    {
        let ghost s = *self;
        let mut tr: usize = 0;
        while tr < 8
            invariant
                tr <= 8,
                fr < 8,
                fc < 8,
                s == *self,
                forall|r2: int, c2: int, pr: Option<PieceType>| 0 <= r2 < tr ==> !#[trigger] legal(s, fr as int, fc as int, r2, c2, pr),
            decreases 8 - tr,
        {
            let mut tc: usize = 0;
            while tc < 8
                invariant
                    tr < 8,
                    tc <= 8,
                    fr < 8,
                    fc < 8,
                    s == *self,
                    forall|r2: int, c2: int, pr: Option<PieceType>| 0 <= r2 < tr ==> !#[trigger] legal(s, fr as int, fc as int, r2, c2, pr),
                    forall|c2: int, pr: Option<PieceType>| 0 <= c2 < tc ==> !#[trigger] legal(s, fr as int, fc as int, tr as int, c2, pr),
                decreases 8 - tc,
            {
                if self.legal_any_promotion(fr, fc, tr, tc) {
                    return true;
                }
                tc = tc + 1;
            }
            tr = tr + 1;
        }
        false
    }

    /// Whether the side to move has any legal move.
    pub fn has_legal_move(&self) -> (r: bool)
        ensures
            r == has_legal_move(*self),
    {
        let ghost s = *self;
        let mut fr: usize = 0;
        while fr < 8
            invariant
                fr <= 8,
                s == *self,
                forall|r2: int, c2: int| 0 <= r2 < fr ==> !#[trigger] legal_from(s, r2, c2),
            decreases 8 - fr,
        {
            let mut fc: usize = 0;
            while fc < 8
                invariant
                    fr < 8,
                    fc <= 8,
                    s == *self,
                    forall|r2: int, c2: int| 0 <= r2 < fr ==> !#[trigger] legal_from(s, r2, c2),
                    forall|c2: int| 0 <= c2 < fc ==> !#[trigger] legal_from(s, fr as int, c2),
                decreases 8 - fc,
            {
                if self.legal_from_exec(fr, fc) {
                    assert(legal_from(s, fr as int, fc as int) && on_board(fr as int, fc as int));
                    return true;
                }
                fc = fc + 1;
            }
            fr = fr + 1;
        }
        assert forall|r2: int, c2: int| !(#[trigger] legal_from(s, r2, c2) && on_board(r2, c2)) by {
            if on_board(r2, c2) {
                assert(!legal_from(s, r2, c2));
            }
        }
        false
    }

    /// The side to move is in check and has no legal move.
    pub fn is_checkmate(&self) -> (r: bool)
        ensures
            r == checkmate(*self),
    {
        self.is_check(self.side_to_move) && !self.has_legal_move()
    }

    /// The side to move is not in check and has no legal move.
    pub fn is_stalemate(&self) -> (r: bool)
        ensures
            r == stalemate(*self),
    {
        !self.is_check(self.side_to_move) && !self.has_legal_move()
    }
}

} // verus!

verus! {

/// Whether the piece at the first square can reach the second by geometry,
/// counting castling and en passant where their conditions hold, but not
/// whether the move would leave its own king attacked.
pub open spec fn reachable(s: GameState, fr: int, fc: int, tr: int, tc: int) -> bool {
    let g = s.board.grid();
    on_board(tr, tc) && match g(fr, fc) {
        None => false,
        Some(p) => plain_reach(g, fr, fc, tr, tc) || (castle_attempt(p, fr, fc, tr, tc) && castle_ok(
            s,
            p.color_spec(),
            tc == 6,
        )) || (ep_attempt(g, p, fr, fc, tr, tc) && ep_ok(s, p.color_spec(), fr, fc, tr, tc)),
    }
}

impl GameState {
    fn reachable_at(&self, fr: usize, fc: usize, tr: usize, tc: usize) -> (r: bool)
        requires
            fr < 8,
            fc < 8,
            tr < 8,
            tc < 8,
        ensures
            r == reachable(*self, fr as int, fc as int, tr as int, tc as int),
    {
        let p = match self.board.tiles[fr][fc].piece {
            None => return false,
            Some(p) => p,
        };
        if plain_reach_exec(&self.board, fr, fc, tr, tc) {
            return true;
        }
        let color = p.color();
        match p {
            Piece::King(_) => {
                fr == home_row_exec(color) && fc == 4 && tr == fr && (tc == 6 || tc == 2) && self.castle_ok_exec(
                    color,
                    tc == 6,
                )
            },
            Piece::Pawn(_) => {
                let forward_row: bool = match color {
                    Color::White => fr >= 1 && tr == fr - 1,
                    Color::Black => tr == fr + 1,
                };
                let beside: bool = tc == fc + 1 || (fc >= 1 && tc == fc - 1);
                let captured_ok = match self.board.tiles[fr][tc].piece {
                    Some(Piece::Pawn(q)) => q.color != color,
                    _ => false,
                };
                forward_row && beside && self.board.tiles[tr][tc].piece.is_none() && self.ep_at_exec(tr, tc)
                    && captured_ok
            },
            _ => false,
        }
    }

    /// The squares that the piece at `from` can reach by geometry (see
    /// `reachable`), in row-major order; empty when `from` is empty.
    pub fn reachable_squares(&self, from: Position) -> (r: Vec<Position>)
        ensures
            forall|i: int| 0 <= i < r.len() ==> #[trigger] reachable(*self, from.r(), from.c(), r@[i].r(), r@[i].c()),
            forall|row: int, col: int| #[trigger] reachable(*self, from.r(), from.c(), row, col) ==> exists|i: int|
                0 <= i < r.len() && r@[i].r() == row && r@[i].c() == col,
    {
        let fr = from.row();
        let fc = from.col();
        let ghost s = *self;
        let mut out: Vec<Position> = Vec::new();
        let mut tr: usize = 0;
        while tr < 8
            invariant
                tr <= 8,
                fr < 8,
                fc < 8,
                fr == from.r(),
                fc == from.c(),
                s == *self,
                forall|i: int| 0 <= i < out.len() ==> #[trigger] reachable(s, fr as int, fc as int, out@[i].r(), out@[i].c()),
                forall|row: int, col: int| row < tr && #[trigger] reachable(s, fr as int, fc as int, row, col) ==> exists|i: int|
                    0 <= i < out.len() && out@[i].r() == row && out@[i].c() == col,
            decreases 8 - tr,
        {
            let mut tc: usize = 0;
            while tc < 8
                invariant
                    tr < 8,
                    tc <= 8,
                    fr < 8,
                    fc < 8,
                    fr == from.r(),
                    fc == from.c(),
                    s == *self,
                    forall|i: int| 0 <= i < out.len() ==> #[trigger] reachable(s, fr as int, fc as int, out@[i].r(), out@[i].c()),
                    forall|row: int, col: int| (row < tr || (row == tr && col < tc)) && #[trigger] reachable(s, fr as int, fc as int, row, col) ==> exists|i: int|
                        0 <= i < out.len() && out@[i].r() == row && out@[i].c() == col,
                decreases 8 - tc,
            {
                if self.reachable_at(fr, fc, tr, tc) {
                    if let Ok(p) = Position::new(tr, tc) {
                        let ghost before = out@;
                        out.push(p);
                        assert(out@[before.len() as int] == p);
                        assert forall|row: int, col: int| (row < tr || (row == tr && col < tc + 1)) && #[trigger] reachable(s, fr as int, fc as int, row, col) implies exists|i: int|
                            0 <= i < out.len() && out@[i].r() == row && out@[i].c() == col by {
                            if row == tr && col == tc {
                                assert(out@[before.len() as int].r() == row);
                            } else {
                                let i = choose|i: int| 0 <= i < before.len() && before[i].r() == row && before[i].c() == col;
                                assert(out@[i] == before[i]);
                            }
                        }
                    }
                }
                tc = tc + 1;
            }
            tr = tr + 1;
        }
        out
    }
}

} // verus!
