use vstd::prelude::*;

verus! {

/// The two sides. White starts on rows 6 and 7 and moves toward row 0.
#[derive(Debug, Clone, Copy, PartialEq, Eq, Structural)]
pub enum Color {
    White,
    Black,
}

/// The kind of a piece, without its color or history.
#[derive(Debug, Clone, Copy, PartialEq, Eq, Structural)]
pub enum PieceType {
    Pawn,
    Knight,
    Bishop,
    Queen,
    King,
    Rook,
}

/// A side taking part in a game.
#[derive(Debug, Clone, Copy, PartialEq, Eq, Structural)]
pub struct Player {
    pub color: Color,
}

#[derive(Debug, Clone, Copy, PartialEq, Eq, Structural)]
pub struct Pawn {
    pub color: Color,
    pub has_moved: bool,
    /// Set by a two-square advance, cleared by the pawn's next move.
    pub has_double_moved: bool,
}

#[derive(Debug, Clone, Copy, PartialEq, Eq, Structural)]
pub struct Rook {
    pub color: Color,
    pub has_moved: bool,
}

#[derive(Debug, Clone, Copy, PartialEq, Eq, Structural)]
pub struct Knight {
    pub color: Color,
}

#[derive(Debug, Clone, Copy, PartialEq, Eq, Structural)]
pub struct Bishop {
    pub color: Color,
}

#[derive(Debug, Clone, Copy, PartialEq, Eq, Structural)]
pub struct Queen {
    pub color: Color,
}

#[derive(Debug, Clone, Copy, PartialEq, Eq, Structural)]
pub struct King {
    pub color: Color,
    pub has_moved: bool,
}

/// A piece: its kind, its color and the history that legality depends on.
#[derive(Debug, Clone, Copy, PartialEq, Eq, Structural)]
pub enum Piece {
    Pawn(Pawn),
    Knight(Knight),
    Bishop(Bishop),
    Rook(Rook),
    Queen(Queen),
    King(King),
}

/// The other side.
pub open spec fn opponent(c: Color) -> Color {
    match c {
        Color::White => Color::Black,
        Color::Black => Color::White,
    }
}

/// The row change of one step forward for a pawn of color `c`.
pub open spec fn forward(c: Color) -> int {
    match c {
        Color::White => -1,
        Color::Black => 1,
    }
}

/// The row on which the king and rooks of `c` start.
pub open spec fn home_row(c: Color) -> int {
    match c {
        Color::White => 7,
        Color::Black => 0,
    }
}

/// The row on which the pawns of `c` start.
pub open spec fn pawn_row(c: Color) -> int {
    match c {
        Color::White => 6,
        Color::Black => 1,
    }
}

/// The row on which a pawn of `c` promotes.
pub open spec fn last_row(c: Color) -> int {
    match c {
        Color::White => 0,
        Color::Black => 7,
    }
}

/// A fresh piece of type `t` and color `c`, with no history.
pub open spec fn fresh(t: PieceType, c: Color) -> Piece {
    match t {
        PieceType::Pawn => Piece::Pawn(Pawn { color: c, has_moved: false, has_double_moved: false }),
        PieceType::Knight => Piece::Knight(Knight { color: c }),
        PieceType::Bishop => Piece::Bishop(Bishop { color: c }),
        PieceType::Rook => Piece::Rook(Rook { color: c, has_moved: false }),
        PieceType::Queen => Piece::Queen(Queen { color: c }),
        PieceType::King => Piece::King(King { color: c, has_moved: false }),
    }
}

impl Color {
    pub fn other(self) -> (r: Color)
        ensures
            r == opponent(self),
    {
        match self {
            Color::White => Color::Black,
            Color::Black => Color::White,
        }
    }
}

impl Player {
    pub fn new(color: Color) -> (r: Player)
        ensures
            r.color == color,
    {
        Player { color }
    }
}

impl Pawn {
    pub fn new(color: Color) -> (r: Pawn)
        ensures
            r == (Pawn { color, has_moved: false, has_double_moved: false }),
    {
        Pawn { color, has_moved: false, has_double_moved: false }
    }
}

impl Rook {
    pub fn new(color: Color) -> (r: Rook)
        ensures
            r == (Rook { color, has_moved: false }),
    {
        Rook { color, has_moved: false }
    }
}

impl King {
    pub fn new(color: Color) -> (r: King)
        ensures
            r == (King { color, has_moved: false }),
    {
        King { color, has_moved: false }
    }
}

impl Piece {
    pub open spec fn color_spec(self) -> Color {
        match self {
            Piece::Pawn(p) => p.color,
            Piece::Knight(p) => p.color,
            Piece::Bishop(p) => p.color,
            Piece::Rook(p) => p.color,
            Piece::Queen(p) => p.color,
            Piece::King(p) => p.color,
        }
    }

    pub open spec fn type_spec(self) -> PieceType {
        match self {
            Piece::Pawn(_) => PieceType::Pawn,
            Piece::Knight(_) => PieceType::Knight,
            Piece::Bishop(_) => PieceType::Bishop,
            Piece::Rook(_) => PieceType::Rook,
            Piece::Queen(_) => PieceType::Queen,
            Piece::King(_) => PieceType::King,
        }
    }

    /// The piece as it stands after it has made a move; `double` tells
    /// whether that move was a pawn's two-square advance.
    pub open spec fn moved_spec(self, double: bool) -> Piece {
        match self {
            Piece::Pawn(p) => Piece::Pawn(Pawn { color: p.color, has_moved: true, has_double_moved: double }),
            Piece::Rook(p) => Piece::Rook(Rook { color: p.color, has_moved: true }),
            Piece::King(p) => Piece::King(King { color: p.color, has_moved: true }),
            _ => self,
        }
    }

    /// A fresh piece of the given type and color.
    pub fn new(piece_type: PieceType, color: Color) -> (r: Piece)
        ensures
            r == fresh(piece_type, color),
    {
        match piece_type {
            PieceType::Pawn => Piece::Pawn(Pawn::new(color)),
            PieceType::Knight => Piece::Knight(Knight { color }),
            PieceType::Bishop => Piece::Bishop(Bishop { color }),
            PieceType::Rook => Piece::Rook(Rook::new(color)),
            PieceType::Queen => Piece::Queen(Queen { color }),
            PieceType::King => Piece::King(King::new(color)),
        }
    }

    pub fn color(&self) -> (r: Color)
        ensures
            r == self.color_spec(),
    {
        match self {
            Piece::Pawn(p) => p.color,
            Piece::Knight(p) => p.color,
            Piece::Bishop(p) => p.color,
            Piece::Rook(p) => p.color,
            Piece::Queen(p) => p.color,
            Piece::King(p) => p.color,
        }
    }

    pub fn piece_type(&self) -> (r: PieceType)
        ensures
            r == self.type_spec(),
    {
        match self {
            Piece::Pawn(_) => PieceType::Pawn,
            Piece::Knight(_) => PieceType::Knight,
            Piece::Bishop(_) => PieceType::Bishop,
            Piece::Rook(_) => PieceType::Rook,
            Piece::Queen(_) => PieceType::Queen,
            Piece::King(_) => PieceType::King,
        }
    }

    /// The piece after it has moved, with its history updated.
    pub fn moved(&self, double: bool) -> (r: Piece)
        ensures
            r == self.moved_spec(double),
    {
        match self {
            Piece::Pawn(p) => Piece::Pawn(Pawn { color: p.color, has_moved: true, has_double_moved: double }),
            Piece::Rook(p) => Piece::Rook(Rook { color: p.color, has_moved: true }),
            Piece::King(p) => Piece::King(King { color: p.color, has_moved: true }),
            _ => *self,
        }
    }
}

} // verus!
