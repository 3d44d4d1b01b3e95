use chess::{
    Bishop, Board, Color, GameError, King, Knight, MoveError, Pawn, Piece, PieceType, Player, Position, Queen,
    Rook, SelectError, Tile,
};

fn pos(row: usize, col: usize) -> Position {
    Position::new(row, col).unwrap()
}

#[test]
fn position_inside_board() {
    for row in 0..8 {
        for col in 0..8 {
            let p = Position::new(row, col).unwrap();
            assert_eq!((p.row(), p.col()), (row, col));
        }
    }
}

#[test]
fn position_outside_board() {
    assert_eq!(Position::new(8, 0), Err(SelectError::OutsideBoard));
    assert_eq!(Position::new(0, 8), Err(SelectError::OutsideBoard));
    assert_eq!(Position::new(100, 3), Err(SelectError::OutsideBoard));
    assert_eq!(Position::new(usize::MAX, usize::MAX), Err(SelectError::OutsideBoard));
}

#[test]
fn empty_board() {
    let b = Board::new();
    for row in 0..8 {
        for col in 0..8 {
            assert_eq!(b.get_tile(pos(row, col)), None);
        }
    }
}

#[test]
fn place_and_read() {
    let mut b = Board::new();
    let q = Piece::Queen(Queen { color: Color::Black });
    b.place(pos(3, 5), Some(q));
    assert_eq!(b.get_tile(pos(3, 5)), Some(q));
    assert_eq!(b.get_tile(pos(5, 3)), None);
    b.place(pos(3, 5), None);
    assert_eq!(b.get_tile(pos(3, 5)), None);
}

#[test]
fn raw_move_transfers_piece() {
    let mut b = Board::new();
    let n = Piece::Knight(Knight { color: Color::White });
    let victim = Piece::Bishop(Bishop { color: Color::Black });
    b.place(pos(7, 1), Some(n));
    b.place(pos(5, 2), Some(victim));
    b.raw_move(pos(7, 1), pos(5, 2));
    assert_eq!(b.get_tile(pos(7, 1)), None);
    assert_eq!(b.get_tile(pos(5, 2)), Some(n));
}

#[test]
fn move_and_undo_restores_board() {
    let mut b = Board::new();
    let r = Piece::Rook(Rook::new(Color::White));
    let victim = Piece::Pawn(Pawn::new(Color::Black));
    b.place(pos(0, 0), Some(r));
    b.place(pos(0, 5), Some(victim));
    let before = format!("{:?}", b);
    let captured = b.get_tile(pos(0, 5));
    b.raw_move(pos(0, 0), pos(0, 5));
    b.raw_move(pos(0, 5), pos(0, 0));
    b.place(pos(0, 5), captured);
    assert_eq!(format!("{:?}", b), before);
}

#[test]
fn can_move_rules() {
    let mut b = Board::new();
    b.place(pos(0, 0), Some(Piece::King(King::new(Color::White))));
    b.place(pos(0, 1), Some(Piece::Pawn(Pawn::new(Color::White))));
    b.place(pos(1, 1), Some(Piece::Pawn(Pawn::new(Color::Black))));
    assert_eq!(b.can_move(pos(0, 0), pos(0, 1)), Err(MoveError::SquareOccupied));
    assert_eq!(b.can_move(pos(0, 0), pos(1, 1)), Ok(true));
    assert_eq!(b.can_move(pos(0, 0), pos(1, 0)), Ok(true));
}

#[test]
fn move_piece_checks_occupation() {
    let mut b = Board::new();
    let k = Piece::King(King::new(Color::White));
    b.place(pos(0, 0), Some(k));
    b.place(pos(0, 1), Some(Piece::Pawn(Pawn::new(Color::White))));
    assert_eq!(b.move_piece(pos(0, 0), pos(0, 1)), Err(MoveError::SquareOccupied));
    assert_eq!(b.get_tile(pos(0, 0)), Some(k));
    assert_eq!(b.move_piece(pos(0, 0), pos(1, 0)), Ok(()));
    assert_eq!(b.get_tile(pos(1, 0)), Some(k));
    assert_eq!(b.get_tile(pos(0, 0)), None);
}

#[test]
fn select_piece_rules() {
    let mut b = Board::new();
    let p = Piece::new(PieceType::Rook, Color::Black);
    b.place(pos(2, 2), Some(p));
    assert_eq!(b.select_piece(pos(2, 2), Player::new(Color::Black)), Ok(p));
    assert_eq!(b.select_piece(pos(2, 2), Player::new(Color::White)), Err(SelectError::WrongColor));
    assert_eq!(b.select_piece(pos(3, 3), Player::new(Color::White)), Err(SelectError::NoPieceAtPosition));
}

#[test]
fn attack_geometry() {
    let mut b = Board::new();
    b.place(pos(4, 4), Some(Piece::new(PieceType::Pawn, Color::White)));
    b.place(pos(0, 0), Some(Piece::new(PieceType::Bishop, Color::Black)));
    b.place(pos(2, 2), Some(Piece::new(PieceType::Knight, Color::White)));
    assert!(b.attacks(pos(4, 4), pos(3, 3)));
    assert!(b.attacks(pos(4, 4), pos(3, 5)));
    assert!(!b.attacks(pos(4, 4), pos(3, 4)));
    assert!(!b.attacks(pos(4, 4), pos(5, 5)));
    assert!(b.attacks(pos(0, 0), pos(1, 1)));
    assert!(b.attacks(pos(0, 0), pos(2, 2)));
    assert!(!b.attacks(pos(0, 0), pos(3, 3)));
    assert!(b.attacks(pos(2, 2), pos(0, 1)));
    assert!(b.attacks(pos(2, 2), pos(4, 3)));
    assert!(!b.attacks(pos(2, 2), pos(3, 3)));
    assert!(b.is_attacked(pos(3, 3), Color::White));
    assert!(!b.is_attacked(pos(3, 3), Color::Black));
    assert!(b.is_attacked(pos(1, 1), Color::Black));
    assert!(!b.is_check(Color::White));
}

#[test]
fn tile_basics() {
    let mut t = Tile::default();
    assert_eq!(t.piece, None);
    let p = Piece::new(PieceType::King, Color::White);
    t.insert(Some(p));
    assert_eq!(t, Tile::new(Some(p)));
    assert_eq!(p.piece_type(), PieceType::King);
    assert_eq!(p.color(), Color::White);
    assert_eq!(Color::White.other(), Color::Black);
}

#[test]
fn game_error_from_parts() {
    assert_eq!(GameError::from(SelectError::WrongColor), GameError::Select(SelectError::WrongColor));
    assert_eq!(GameError::from(MoveError::InvalidMove), GameError::Move(MoveError::InvalidMove));
}
