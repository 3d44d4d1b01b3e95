use chess::{
    Board, CastlingRights, Color, GameError, GameState, King, MoveError, MoveKind, Pawn, Piece, PieceType,
    Position, Rook, SelectError,
};

fn pos(row: usize, col: usize) -> Position {
    Position::new(row, col).unwrap()
}

fn state(board: Board, side: Color) -> GameState {
    GameState {
        board,
        side_to_move: side,
        castling: CastlingRights {
            white_kingside: true,
            white_queenside: true,
            black_kingside: true,
            black_queenside: true,
        },
        en_passant_target: None,
        halfmove_clock: 0,
        fullmove_number: 1,
    }
}

fn put(board: &mut Board, row: usize, col: usize, t: PieceType, c: Color) {
    board.place(pos(row, col), Some(Piece::new(t, c)));
}

fn kind_at(s: &GameState, row: usize, col: usize) -> Option<(PieceType, Color)> {
    s.tile_at(pos(row, col)).map(|p| (p.piece_type(), p.color()))
}

#[test]
fn opening_pawn_double_step() {
    let mut s = GameState::initial();
    assert_eq!(s.attempt_move(pos(6, 4), pos(4, 4), None), Ok(MoveKind::Normal));
    assert_eq!(s.side_to_move(), Color::Black);
    assert_eq!(s.en_passant_target, Some(pos(5, 4)));
    assert_eq!(kind_at(&s, 4, 4), Some((PieceType::Pawn, Color::White)));
    assert_eq!(kind_at(&s, 6, 4), None);
    assert_eq!(s.halfmove_clock, 0);
    assert_eq!(s.fullmove_number, 1);
}

#[test]
fn initial_position_layout() {
    let s = GameState::initial();
    assert_eq!(kind_at(&s, 0, 4), Some((PieceType::King, Color::Black)));
    assert_eq!(kind_at(&s, 0, 3), Some((PieceType::Queen, Color::Black)));
    assert_eq!(kind_at(&s, 7, 0), Some((PieceType::Rook, Color::White)));
    assert_eq!(kind_at(&s, 7, 1), Some((PieceType::Knight, Color::White)));
    assert_eq!(kind_at(&s, 7, 2), Some((PieceType::Bishop, Color::White)));
    assert_eq!(kind_at(&s, 1, 5), Some((PieceType::Pawn, Color::Black)));
    assert_eq!(kind_at(&s, 4, 4), None);
    assert_eq!(s.side_to_move(), Color::White);
    assert!(!s.is_check(Color::White));
    assert!(!s.is_checkmate());
    assert!(!s.is_stalemate());
    assert!(s.has_legal_move());
}

#[test]
fn knight_opening_move_and_counters() {
    let mut s = GameState::initial();
    assert_eq!(s.attempt_move(pos(7, 6), pos(5, 5), None), Ok(MoveKind::Normal));
    assert_eq!(s.halfmove_clock, 1);
    assert_eq!(s.attempt_move(pos(0, 1), pos(2, 2), None), Ok(MoveKind::Normal));
    assert_eq!(s.halfmove_clock, 2);
    assert_eq!(s.fullmove_number, 2);
    assert_eq!(s.side_to_move(), Color::White);
    assert_eq!(s.en_passant_target, None);
}

#[test]
fn black_double_step_then_en_passant() {
    let mut b = Board::new();
    put(&mut b, 7, 4, PieceType::King, Color::White);
    put(&mut b, 0, 4, PieceType::King, Color::Black);
    put(&mut b, 1, 3, PieceType::Pawn, Color::Black);
    put(&mut b, 3, 4, PieceType::Pawn, Color::White);
    let mut s = state(b, Color::Black);
    assert_eq!(s.attempt_move(pos(1, 3), pos(3, 3), None), Ok(MoveKind::Normal));
    assert_eq!(s.en_passant_target, Some(pos(2, 3)));
    assert_eq!(s.attempt_move(pos(3, 4), pos(2, 3), None), Ok(MoveKind::EnPassant));
    assert_eq!(kind_at(&s, 3, 3), None);
    assert_eq!(kind_at(&s, 3, 4), None);
    assert_eq!(kind_at(&s, 2, 3), Some((PieceType::Pawn, Color::White)));
    assert_eq!(s.en_passant_target, None);
}

#[test]
fn white_double_step_then_en_passant() {
    let mut b = Board::new();
    put(&mut b, 7, 0, PieceType::King, Color::White);
    put(&mut b, 0, 0, PieceType::King, Color::Black);
    put(&mut b, 6, 4, PieceType::Pawn, Color::White);
    put(&mut b, 4, 3, PieceType::Pawn, Color::Black);
    let mut s = state(b, Color::White);
    assert_eq!(s.attempt_move(pos(6, 4), pos(4, 4), None), Ok(MoveKind::Normal));
    assert_eq!(s.en_passant_target, Some(pos(5, 4)));
    assert_eq!(s.attempt_move(pos(4, 3), pos(5, 4), None), Ok(MoveKind::EnPassant));
    assert_eq!(kind_at(&s, 4, 4), None);
    assert_eq!(kind_at(&s, 5, 4), Some((PieceType::Pawn, Color::Black)));
}

#[test]
fn en_passant_window_closes() {
    let mut b = Board::new();
    put(&mut b, 7, 0, PieceType::King, Color::White);
    put(&mut b, 0, 0, PieceType::King, Color::Black);
    put(&mut b, 6, 4, PieceType::Pawn, Color::White);
    put(&mut b, 4, 3, PieceType::Pawn, Color::Black);
    put(&mut b, 1, 7, PieceType::Pawn, Color::Black);
    put(&mut b, 6, 7, PieceType::Pawn, Color::White);
    let mut s = state(b, Color::White);
    assert_eq!(s.attempt_move(pos(6, 4), pos(4, 4), None), Ok(MoveKind::Normal));
    assert_eq!(s.attempt_move(pos(1, 7), pos(2, 7), None), Ok(MoveKind::Normal));
    assert_eq!(s.attempt_move(pos(6, 7), pos(5, 7), None), Ok(MoveKind::Normal));
    assert_eq!(
        s.attempt_move(pos(4, 3), pos(5, 4), None),
        Err(GameError::Move(MoveError::IllegalEnPassant))
    );
}

fn castle_board() -> Board {
    let mut b = Board::new();
    b.place(pos(7, 4), Some(Piece::King(King::new(Color::White))));
    b.place(pos(7, 7), Some(Piece::Rook(Rook::new(Color::White))));
    b.place(pos(7, 0), Some(Piece::Rook(Rook::new(Color::White))));
    put(&mut b, 0, 4, PieceType::King, Color::Black);
    b
}

#[test]
fn castle_kingside() {
    let mut s = state(castle_board(), Color::White);
    assert_eq!(s.attempt_move(pos(7, 4), pos(7, 6), None), Ok(MoveKind::CastleKingside));
    assert_eq!(s.tile_at(pos(7, 6)), Some(Piece::King(King { color: Color::White, has_moved: true })));
    assert_eq!(s.tile_at(pos(7, 5)), Some(Piece::Rook(Rook { color: Color::White, has_moved: true })));
    assert_eq!(s.tile_at(pos(7, 4)), None);
    assert_eq!(s.tile_at(pos(7, 7)), None);
    assert!(!s.castling.white_kingside);
    assert!(!s.castling.white_queenside);
    assert!(s.castling.black_kingside);
}

#[test]
fn castle_queenside() {
    let mut s = state(castle_board(), Color::White);
    assert_eq!(s.attempt_move(pos(7, 4), pos(7, 2), None), Ok(MoveKind::CastleQueenside));
    assert_eq!(kind_at(&s, 7, 2), Some((PieceType::King, Color::White)));
    assert_eq!(kind_at(&s, 7, 3), Some((PieceType::Rook, Color::White)));
    assert_eq!(kind_at(&s, 7, 0), None);
}

#[test]
fn castle_through_attacked_square() {
    let mut b = castle_board();
    put(&mut b, 0, 5, PieceType::Rook, Color::Black);
    let mut s = state(b, Color::White);
    let before = format!("{:?}", s);
    assert_eq!(
        s.attempt_move(pos(7, 4), pos(7, 6), None),
        Err(GameError::Move(MoveError::IllegalCastle))
    );
    assert_eq!(format!("{:?}", s), before);
}

#[test]
fn castle_after_rook_moved() {
    let mut s = state(castle_board(), Color::White);
    assert_eq!(s.attempt_move(pos(7, 7), pos(6, 7), None), Ok(MoveKind::Normal));
    assert_eq!(s.attempt_move(pos(0, 4), pos(0, 3), None), Ok(MoveKind::Normal));
    assert_eq!(s.attempt_move(pos(6, 7), pos(7, 7), None), Ok(MoveKind::Normal));
    assert_eq!(s.attempt_move(pos(0, 3), pos(0, 4), None), Ok(MoveKind::Normal));
    assert_eq!(
        s.attempt_move(pos(7, 4), pos(7, 6), None),
        Err(GameError::Move(MoveError::IllegalCastle))
    );
}

#[test]
fn castle_while_in_check() {
    let mut b = castle_board();
    put(&mut b, 3, 4, PieceType::Rook, Color::Black);
    let s = state(b, Color::White);
    assert!(s.is_check(Color::White));
    assert_eq!(s.is_legal(pos(7, 4), pos(7, 6), None), Err(GameError::Move(MoveError::IllegalCastle)));
}

#[test]
fn queen_and_king_checkmate() {
    let mut b = Board::new();
    put(&mut b, 0, 0, PieceType::King, Color::Black);
    put(&mut b, 1, 1, PieceType::Queen, Color::White);
    put(&mut b, 2, 2, PieceType::King, Color::White);
    let s = state(b, Color::Black);
    assert!(s.is_check(Color::Black));
    assert!(!s.has_legal_move());
    assert!(s.is_checkmate());
    assert!(!s.is_stalemate());
}

#[test]
fn queen_and_king_stalemate() {
    let mut b = Board::new();
    put(&mut b, 0, 0, PieceType::King, Color::Black);
    put(&mut b, 2, 1, PieceType::Queen, Color::White);
    put(&mut b, 2, 2, PieceType::King, Color::White);
    let s = state(b, Color::Black);
    assert!(!s.is_check(Color::Black));
    assert!(s.is_stalemate());
    assert!(!s.is_checkmate());
}

#[test]
fn check_with_escape_is_not_mate() {
    let mut b = Board::new();
    put(&mut b, 0, 0, PieceType::King, Color::Black);
    put(&mut b, 0, 7, PieceType::Rook, Color::White);
    put(&mut b, 7, 7, PieceType::King, Color::White);
    let s = state(b, Color::Black);
    assert!(s.is_check(Color::Black));
    assert!(!s.is_checkmate());
    assert_eq!(s.is_legal(pos(0, 0), pos(1, 0), None), Ok(MoveKind::Normal));
    assert_eq!(s.is_legal(pos(0, 0), pos(0, 1), None), Err(GameError::Move(MoveError::MovesIntoCheck)));
}

#[test]
fn legality_check_is_repeatable() {
    let s = GameState::initial();
    let before = format!("{:?}", s);
    let first = s.is_legal(pos(6, 3), pos(4, 3), None);
    let second = s.is_legal(pos(6, 3), pos(4, 3), None);
    assert_eq!(first, Ok(MoveKind::Normal));
    assert_eq!(first, second);
    let bad1 = s.is_legal(pos(7, 0), pos(5, 0), None);
    let bad2 = s.is_legal(pos(7, 0), pos(5, 0), None);
    assert_eq!(bad1, Err(GameError::Move(MoveError::InvalidMove)));
    assert_eq!(bad1, bad2);
    assert_eq!(format!("{:?}", s), before);
}

#[test]
fn select_errors() {
    let s = GameState::initial();
    assert_eq!(
        s.is_legal(pos(4, 4), pos(3, 4), None),
        Err(GameError::Select(SelectError::NoPieceAtPosition))
    );
    assert_eq!(s.is_legal(pos(1, 4), pos(2, 4), None), Err(GameError::Select(SelectError::WrongColor)));
}

#[test]
fn move_errors_on_initial_position() {
    let mut s = GameState::initial();
    let before = format!("{:?}", s);
    assert_eq!(
        s.attempt_move(pos(7, 0), pos(6, 0), None),
        Err(GameError::Move(MoveError::SquareOccupied))
    );
    assert_eq!(s.attempt_move(pos(7, 2), pos(5, 4), None), Err(GameError::Move(MoveError::InvalidMove)));
    assert_eq!(s.attempt_move(pos(6, 4), pos(3, 4), None), Err(GameError::Move(MoveError::InvalidMove)));
    assert_eq!(s.attempt_move(pos(6, 4), pos(5, 5), None), Err(GameError::Move(MoveError::IllegalEnPassant)));
    assert_eq!(
        s.attempt_move(pos(6, 4), pos(5, 4), Some(PieceType::Queen)),
        Err(GameError::Move(MoveError::IllegalPromotion))
    );
    assert_eq!(format!("{:?}", s), before);
}

#[test]
fn pinned_piece_cannot_move() {
    let mut b = Board::new();
    put(&mut b, 7, 4, PieceType::King, Color::White);
    put(&mut b, 6, 4, PieceType::Bishop, Color::White);
    put(&mut b, 0, 4, PieceType::Rook, Color::Black);
    put(&mut b, 0, 0, PieceType::King, Color::Black);
    let mut s = state(b, Color::White);
    assert_eq!(s.attempt_move(pos(6, 4), pos(5, 3), None), Err(GameError::Move(MoveError::MovesIntoCheck)));
    assert_eq!(kind_at(&s, 6, 4), Some((PieceType::Bishop, Color::White)));
}

fn promotion_state() -> GameState {
    let mut b = Board::new();
    put(&mut b, 7, 4, PieceType::King, Color::White);
    put(&mut b, 0, 0, PieceType::King, Color::Black);
    put(&mut b, 1, 6, PieceType::Pawn, Color::White);
    put(&mut b, 0, 7, PieceType::Knight, Color::Black);
    state(b, Color::White)
}

#[test]
fn promotion_needs_a_choice() {
    let s = promotion_state();
    assert_eq!(s.is_legal(pos(1, 6), pos(0, 6), None), Err(GameError::Move(MoveError::MissingPromotion)));
    assert_eq!(
        s.is_legal(pos(1, 6), pos(0, 6), Some(PieceType::King)),
        Err(GameError::Move(MoveError::IllegalPromotion))
    );
    assert_eq!(
        s.is_legal(pos(1, 6), pos(0, 6), Some(PieceType::Pawn)),
        Err(GameError::Move(MoveError::IllegalPromotion))
    );
}

#[test]
fn promotion_replaces_pawn() {
    let mut s = promotion_state();
    assert_eq!(s.attempt_move(pos(1, 6), pos(0, 6), Some(PieceType::Queen)), Ok(MoveKind::Promotion));
    assert_eq!(kind_at(&s, 0, 6), Some((PieceType::Queen, Color::White)));
    assert_eq!(kind_at(&s, 1, 6), None);
}

#[test]
fn promotion_by_capture() {
    let mut s = promotion_state();
    assert_eq!(s.attempt_move(pos(1, 6), pos(0, 7), Some(PieceType::Knight)), Ok(MoveKind::Promotion));
    assert_eq!(kind_at(&s, 0, 7), Some((PieceType::Knight, Color::White)));
}

#[test]
fn capture_resets_halfmove_clock() {
    let mut b = Board::new();
    put(&mut b, 7, 4, PieceType::King, Color::White);
    put(&mut b, 0, 0, PieceType::King, Color::Black);
    put(&mut b, 4, 0, PieceType::Rook, Color::White);
    put(&mut b, 4, 6, PieceType::Knight, Color::Black);
    let mut s = state(b, Color::White);
    s.halfmove_clock = 9;
    assert_eq!(s.attempt_move(pos(4, 0), pos(4, 6), None), Ok(MoveKind::Capture));
    assert_eq!(s.halfmove_clock, 0);
    assert_eq!(kind_at(&s, 4, 6), Some((PieceType::Rook, Color::White)));
}

#[test]
fn sliders_stop_at_first_piece() {
    let mut b = Board::new();
    put(&mut b, 7, 7, PieceType::King, Color::White);
    put(&mut b, 0, 7, PieceType::King, Color::Black);
    put(&mut b, 4, 4, PieceType::Queen, Color::White);
    put(&mut b, 2, 2, PieceType::Pawn, Color::Black);
    put(&mut b, 4, 6, PieceType::Pawn, Color::White);
    let s = state(b, Color::White);
    assert_eq!(s.is_legal(pos(4, 4), pos(2, 2), None), Ok(MoveKind::Capture));
    assert_eq!(s.is_legal(pos(4, 4), pos(1, 1), None), Err(GameError::Move(MoveError::InvalidMove)));
    assert_eq!(s.is_legal(pos(4, 4), pos(4, 7), None), Err(GameError::Move(MoveError::InvalidMove)));
    assert_eq!(s.is_legal(pos(4, 4), pos(4, 6), None), Err(GameError::Move(MoveError::SquareOccupied)));
    assert_eq!(s.is_legal(pos(4, 4), pos(0, 4), None), Ok(MoveKind::Normal));
    assert_eq!(s.is_legal(pos(4, 4), pos(2, 5), None), Err(GameError::Move(MoveError::InvalidMove)));
}

#[test]
fn pawn_blocked_and_not_backward() {
    let mut b = Board::new();
    put(&mut b, 7, 7, PieceType::King, Color::White);
    put(&mut b, 0, 7, PieceType::King, Color::Black);
    put(&mut b, 6, 2, PieceType::Pawn, Color::White);
    put(&mut b, 5, 2, PieceType::Knight, Color::Black);
    put(&mut b, 4, 5, PieceType::Pawn, Color::White);
    let s = state(b, Color::White);
    assert_eq!(s.is_legal(pos(6, 2), pos(5, 2), None), Err(GameError::Move(MoveError::InvalidMove)));
    assert_eq!(s.is_legal(pos(6, 2), pos(4, 2), None), Err(GameError::Move(MoveError::InvalidMove)));
    assert_eq!(s.is_legal(pos(4, 5), pos(5, 5), None), Err(GameError::Move(MoveError::InvalidMove)));
    assert_eq!(s.is_legal(pos(4, 5), pos(2, 5), None), Err(GameError::Move(MoveError::InvalidMove)));
}

#[test]
fn new_pawn_has_no_history() {
    let p = Pawn::new(Color::Black);
    assert!(!p.has_moved);
    assert!(!p.has_double_moved);
    assert_eq!(Piece::new(PieceType::Pawn, Color::Black), Piece::Pawn(p));
}

#[test]
fn reachable_squares_of_pieces() {
    let s = GameState::initial();
    let knight = s.reachable_squares(pos(7, 1));
    assert_eq!(knight, vec![pos(5, 0), pos(5, 2)]);
    let pawn = s.reachable_squares(pos(6, 4));
    assert_eq!(pawn, vec![pos(4, 4), pos(5, 4)]);
    assert_eq!(s.reachable_squares(pos(7, 0)), Vec::<Position>::new());
    assert_eq!(s.reachable_squares(pos(4, 4)), Vec::<Position>::new());
    let c = state(castle_board(), Color::White);
    let king = c.reachable_squares(pos(7, 4));
    assert!(king.contains(&pos(7, 6)));
    assert!(king.contains(&pos(7, 2)));
    assert!(king.contains(&pos(6, 4)));
    assert_eq!(king.len(), 7);
}
