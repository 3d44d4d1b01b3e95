use vstd::prelude::*;

verus! {

/// Errors raised while choosing the piece to move.
#[derive(Debug, Clone, Copy, PartialEq, Eq, Structural)]
pub enum SelectError {
    WrongColor,
    OutsideBoard,
    NoPieceAtPosition,
}

/// Errors raised while judging the movement of a chosen piece.
#[derive(Debug, Clone, Copy, PartialEq, Eq, Structural)]
pub enum MoveError {
    SquareOccupied,
    InvalidMove,
    MovesIntoCheck,
    MissingPromotion,
    IllegalPromotion,
    IllegalCastle,
    IllegalEnPassant,
}

/// Any error that a move attempt can report.
#[derive(Debug, Clone, Copy, PartialEq, Eq, Structural)]
pub enum GameError {
    Select(SelectError),
    Move(MoveError),
}

impl From<SelectError> for GameError {
    fn from(error: SelectError) -> (r: Self)
        ensures
            r == GameError::Select(error),
    {
        GameError::Select(error)
    }
}

impl vstd::std_specs::convert::FromSpecImpl<SelectError> for GameError {
    open spec fn obeys_from_spec() -> bool {
        true
    }

    open spec fn from_spec(error: SelectError) -> Self {
        GameError::Select(error)
    }
}

impl From<MoveError> for GameError {
    fn from(error: MoveError) -> (r: Self)
        ensures
            r == GameError::Move(error),
    {
        GameError::Move(error)
    }
}

impl vstd::std_specs::convert::FromSpecImpl<MoveError> for GameError {
    open spec fn obeys_from_spec() -> bool {
        true
    }

    open spec fn from_spec(error: MoveError) -> Self {
        GameError::Move(error)
    }
}

} // verus!
