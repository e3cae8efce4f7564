//! The content of one cell of the board.
use vstd::prelude::*;

verus! {

/// What one square of the grid holds: the mark of the first player, the mark
/// of the second player, or nothing yet.
#[derive(Copy, Clone, Debug, PartialEq, Eq, Structural)]
pub enum BoardCell {
    X,
    O,
    Empty,
}

/// The character a cell is drawn with.
pub open spec fn symbol_of(cell: BoardCell) -> char {
    match cell {
        BoardCell::X => 'X',
        BoardCell::O => 'O',
        BoardCell::Empty => ' ',
    }
}

/// The mark of the player who moves after `mark`. An empty cell is no
/// player and has no successor but itself.
pub open spec fn other_mark(mark: BoardCell) -> BoardCell {
    match mark {
        BoardCell::X => BoardCell::O,
        BoardCell::O => BoardCell::X,
        BoardCell::Empty => BoardCell::Empty,
    }
}

impl BoardCell {
    /// True for the two player marks, false for an empty cell.
    pub open spec fn is_mark(self) -> bool {
        self != BoardCell::Empty
    }

    /// Tells a player's mark from an empty cell.
    pub fn isMark(&self) -> (b: bool)
        ensures
            b == self.is_mark(),
    {
        match self {
            BoardCell::Empty => false,
            _ => true,
        }
    }

    /// The one-character text the cell is drawn with.
    pub fn symbol(&self) -> (s: &'static str)
        ensures
            s@ == seq![symbol_of(*self)],
    {
        proof {
            reveal_strlit("X");
            reveal_strlit("O");
            reveal_strlit(" ");
        }
        match self {
            BoardCell::X => "X",
            BoardCell::O => "O",
            BoardCell::Empty => " ",
        }
    }

    /// The mark of the opposing player.
    pub fn opponent(&self) -> (m: BoardCell)
        ensures
            m == other_mark(*self),
    {
        match self {
            BoardCell::X => BoardCell::O,
            BoardCell::O => BoardCell::X,
            BoardCell::Empty => BoardCell::Empty,
        }
    }
}

} // verus!
