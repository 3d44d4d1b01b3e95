//! A chess rules engine: board state, move geometry, legality checking and
//! move application, with contracts proved by Verus.
pub mod board;
pub mod error;
pub mod game;
pub mod laws;
pub mod piece;
pub mod position;
pub mod rules;

pub use board::{Board, Tile};
pub use error::{GameError, MoveError, SelectError};
pub use game::{CastlingRights, GameState, MoveKind};
pub use piece::{Bishop, Color, King, Knight, Pawn, Piece, PieceType, Player, Queen, Rook};
pub use position::Position;
