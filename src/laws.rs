//! Laws of the rules engine that relate several calls or hold of every
//! state, proved from the spec functions that the operations' contracts use.
use vstd::prelude::*;

use crate::board::Grid;
use crate::error::{GameError, MoveError};
use crate::game::{after_grid, applied, castle_ok, ep_at, has_right, legal_result, GameState, MoveKind};
use crate::piece::{forward, home_row, opponent, pawn_row, King, Piece, PieceType, Rook};
use crate::position::on_board;
use crate::rules::{attacked, attacker, in_check, king_in_danger, lemma_slide_direction, slide};

verus! {

/// Asking whether a move is legal reads the state and nothing else: two
/// questions with one state and one set of arguments get one answer, and the
/// state stays as it was (`is_legal` borrows it immutably).
pub proof fn lemma_legality_is_deterministic(
    s1: GameState,
    s2: GameState,
    fr: int,
    fc: int,
    tr: int,
    tc: int,
    promotion: Option<PieceType>,
)
    requires
        s1 == s2,
    ensures
        legal_result(s1, fr, fc, tr, tc, promotion) == legal_result(s2, fr, fc, tr, tc, promotion),
{
}

/// A pawn's two-square advance makes the square it passed over the en passant
/// target; on the next move an opposing pawn beside it may capture onto that
/// square (unless that leaves its own king attacked), and the capture removes
/// the pawn that advanced, not anything on the landing square.
pub proof fn lemma_double_step_then_en_passant(
    s: GameState,
    t: GameState,
    fc: int,
    cc: int,
    kind: MoveKind,
)
    requires
        on_board(pawn_row(s.side_to_move), fc),
        s.board.at(pawn_row(s.side_to_move), fc) matches Some(Piece::Pawn(_)),
        legal_result(
            s,
            pawn_row(s.side_to_move),
            fc,
            pawn_row(s.side_to_move) + 2 * forward(s.side_to_move),
            fc,
            None,
        ) == Ok::<MoveKind, GameError>(kind),
        applied(
            s,
            t,
            pawn_row(s.side_to_move),
            fc,
            pawn_row(s.side_to_move) + 2 * forward(s.side_to_move),
            fc,
            None,
            kind,
        ),
        cc == fc + 1 || cc == fc - 1,
        t.board.at(pawn_row(s.side_to_move) + 2 * forward(s.side_to_move), cc) matches Some(Piece::Pawn(q))
            && q.color == t.side_to_move,
        !in_check(
            after_grid(
                t,
                pawn_row(s.side_to_move) + 2 * forward(s.side_to_move),
                cc,
                pawn_row(s.side_to_move) + forward(s.side_to_move),
                fc,
                MoveKind::EnPassant,
                None,
            ),
            t.side_to_move,
        ),
    ensures
        ep_at(t, pawn_row(s.side_to_move) + forward(s.side_to_move), fc),
        legal_result(
            t,
            pawn_row(s.side_to_move) + 2 * forward(s.side_to_move),
            cc,
            pawn_row(s.side_to_move) + forward(s.side_to_move),
            fc,
            None,
        ) == Ok::<MoveKind, GameError>(MoveKind::EnPassant),
        after_grid(
            t,
            pawn_row(s.side_to_move) + 2 * forward(s.side_to_move),
            cc,
            pawn_row(s.side_to_move) + forward(s.side_to_move),
            fc,
            MoveKind::EnPassant,
            None,
        )(pawn_row(s.side_to_move) + 2 * forward(s.side_to_move), fc) is None,
        after_grid(
            t,
            pawn_row(s.side_to_move) + 2 * forward(s.side_to_move),
            cc,
            pawn_row(s.side_to_move) + forward(s.side_to_move),
            fc,
            MoveKind::EnPassant,
            None,
        )(pawn_row(s.side_to_move) + forward(s.side_to_move), fc) matches Some(Piece::Pawn(m)) && m.color
            == t.side_to_move,
{
    let color = s.side_to_move;
    let pr = pawn_row(color);
    let f = forward(color);
    let g = s.board.grid();
    let h = t.board.grid();
    let p = g(pr, fc)->Some_0;
    assert(p.color_spec() == color);
    assert(h(pr + f, fc) is None);
    assert(h(pr + 2 * f, fc) == Some(p.moved_spec(true)));
}

/// The king may not castle kingside when the square it passes is attacked.
pub proof fn lemma_castle_through_attack(s: GameState)
    requires
        s.board.at(home_row(s.side_to_move), 4) == Some(
            Piece::King(King { color: s.side_to_move, has_moved: false }),
        ),
        s.board.at(home_row(s.side_to_move), 6) is None,
        attacked(s.board.grid(), home_row(s.side_to_move), 5, opponent(s.side_to_move)),
    ensures
        legal_result(s, home_row(s.side_to_move), 4, home_row(s.side_to_move), 6, None) == Err::<
            MoveKind,
            GameError,
        >(GameError::Move(MoveError::IllegalCastle)),
{
}

/// A slide that reaches the castled king's square `h`, 6 on the board after
/// a kingside castle also reaches it on the board before: the squares that
/// the castle emptied lie where no such slide can pass.
proof fn lemma_castled_slide(g: Grid, g2: Grid, h: int, r: int, c: int, dr: int, dc: int, n: nat)
    requires
        on_board(r, c),
        -1 <= dr <= 1,
        -1 <= dc <= 1,
        forall|a: int, b: int| !(a == h && 4 <= b <= 7) ==> #[trigger] g2(a, b) == g(a, b),
        g2(h, 5) is Some,
        slide(g2, r, c, dr, dc, h, 6, n),
    ensures
        slide(g, r, c, dr, dc, h, 6, n),
    decreases n,
{
    let nr = r + dr;
    let nc = c + dc;
    if !(nr == h && nc == 6) {
        lemma_slide_direction(g2, nr, nc, dr, dc, h, 6, (n - 1) as nat);
        if nr == h && nc == 7 {
            assert(false);
        } else if nr == h && nc == 4 {
            assert(!slide(g2, nr, nc, dr, dc, h, 6, (n - 1) as nat));
        } else {
            assert(g2(nr, nc) == g(nr, nc));
            lemma_castled_slide(g, g2, h, nr, nc, dr, dc, (n - 1) as nat);
        }
    }
}

/// Kingside castling succeeds when the right is held, king and rook stand
/// unmoved on their home squares, the two squares between them are empty,
/// none of the king's square, the square it passes and the square it lands
/// on is attacked, and the side to move has no other king. The king then
/// stands two squares toward the rook, and the rook on the square it passed.
pub proof fn lemma_castle_kingside(s: GameState)
    requires
        has_right(s, s.side_to_move, true),
        s.board.at(home_row(s.side_to_move), 4) == Some(
            Piece::King(King { color: s.side_to_move, has_moved: false }),
        ),
        s.board.at(home_row(s.side_to_move), 7) == Some(
            Piece::Rook(Rook { color: s.side_to_move, has_moved: false }),
        ),
        s.board.at(home_row(s.side_to_move), 5) is None,
        s.board.at(home_row(s.side_to_move), 6) is None,
        !attacked(s.board.grid(), home_row(s.side_to_move), 4, opponent(s.side_to_move)),
        !attacked(s.board.grid(), home_row(s.side_to_move), 5, opponent(s.side_to_move)),
        !attacked(s.board.grid(), home_row(s.side_to_move), 6, opponent(s.side_to_move)),
        forall|r: int, c: int|
            #[trigger] s.board.at(r, c) matches Some(Piece::King(k)) && k.color == s.side_to_move ==> r
                == home_row(s.side_to_move) && c == 4,
    ensures
        legal_result(s, home_row(s.side_to_move), 4, home_row(s.side_to_move), 6, None) == Ok::<
            MoveKind,
            GameError,
        >(MoveKind::CastleKingside),
        after_grid(s, home_row(s.side_to_move), 4, home_row(s.side_to_move), 6, MoveKind::CastleKingside, None)(
            home_row(s.side_to_move),
            6,
        ) == Some(Piece::King(King { color: s.side_to_move, has_moved: true })),
        after_grid(s, home_row(s.side_to_move), 4, home_row(s.side_to_move), 6, MoveKind::CastleKingside, None)(
            home_row(s.side_to_move),
            5,
        ) == Some(Piece::Rook(Rook { color: s.side_to_move, has_moved: true })),
        after_grid(s, home_row(s.side_to_move), 4, home_row(s.side_to_move), 6, MoveKind::CastleKingside, None)(
            home_row(s.side_to_move),
            4,
        ) is None,
        after_grid(s, home_row(s.side_to_move), 4, home_row(s.side_to_move), 6, MoveKind::CastleKingside, None)(
            home_row(s.side_to_move),
            7,
        ) is None,
{
    let color = s.side_to_move;
    let opp = opponent(color);
    let h = home_row(color);
    let g = s.board.grid();
    let g2 = after_grid(s, h, 4, h, 6, MoveKind::CastleKingside, None);
    assert(castle_ok(s, color, true));
    assert forall|a: int, b: int| !(a == h && 4 <= b <= 7) implies #[trigger] g2(a, b) == g(a, b) by {}
    assert(g2(h, 5) is Some);
    assert forall|r: int, c: int| !#[trigger] attacker(g2, opp, r, c, h, 6) by {
        if attacker(g2, opp, r, c, h, 6) {
            assert(!(r == h && 4 <= c <= 7));
            assert(g2(r, c) == g(r, c));
            if slide(g2, r, c, 1, 1, h, 6, 8) {
                lemma_castled_slide(g, g2, h, r, c, 1, 1, 8);
            }
            if slide(g2, r, c, 1, -1, h, 6, 8) {
                lemma_castled_slide(g, g2, h, r, c, 1, -1, 8);
            }
            if slide(g2, r, c, -1, 1, h, 6, 8) {
                lemma_castled_slide(g, g2, h, r, c, -1, 1, 8);
            }
            if slide(g2, r, c, -1, -1, h, 6, 8) {
                lemma_castled_slide(g, g2, h, r, c, -1, -1, 8);
            }
            if slide(g2, r, c, 1, 0, h, 6, 8) {
                lemma_castled_slide(g, g2, h, r, c, 1, 0, 8);
            }
            if slide(g2, r, c, -1, 0, h, 6, 8) {
                lemma_castled_slide(g, g2, h, r, c, -1, 0, 8);
            }
            if slide(g2, r, c, 0, 1, h, 6, 8) {
                lemma_castled_slide(g, g2, h, r, c, 0, 1, 8);
            }
            if slide(g2, r, c, 0, -1, h, 6, 8) {
                lemma_castled_slide(g, g2, h, r, c, 0, -1, 8);
            }
            assert(attacker(g, opp, r, c, h, 6));
        }
    }
    assert forall|r: int, c: int| !#[trigger] king_in_danger(g2, color, r, c) by {
        if king_in_danger(g2, color, r, c) {
            if !(r == h && 4 <= c <= 7) {
                assert(g2(r, c) == g(r, c));
                assert(s.board.at(r, c) == g(r, c));
            } else {
                assert(r == h && c == 6);
            }
        }
    }
}

} // verus!
