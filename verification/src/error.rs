//! The refusals of the board.
use vstd::prelude::*;
use vstd::string::*;

verus! {

/// Why the board refused a move.
#[derive(Copy, Clone, Debug, PartialEq, Eq, Structural)]
pub enum BoardError {
    /// The column or the row lies outside the grid.
    OutOfBounds,
    /// The addressed cell already holds a mark.
    AlreadyChanged,
}

/// The text shown to the player for each refusal.
pub open spec fn error_text(e: BoardError) -> Seq<char> {
    match e {
        BoardError::OutOfBounds => "Invalid index, max range of x and y is 2"@,
        BoardError::AlreadyChanged => "You can't change your or a previous player's answer"@,
    }
}

impl BoardError {
    /// The text shown to the player for this refusal.
    pub fn message(&self) -> (s: String)
        ensures
            s@ == error_text(*self),
    {
        match self {
            BoardError::OutOfBounds => String::from_str("Invalid index, max range of x and y is 2"),
            BoardError::AlreadyChanged => String::from_str(
                "You can't change your or a previous player's answer",
            ),
        }
    }
}

} // verus!
