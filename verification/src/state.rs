//! The state of a game: in progress, won or drawn.
use vstd::prelude::*;
use vstd::string::*;
use crate::cell::BoardCell;

verus! {

/// Where a game stands after a move.
#[derive(Copy, Clone, Debug, PartialEq, Eq, Structural)]
pub enum GameState {
    /// Moves are still being taken.
    InProgress,
    /// The game is over. The cell names the winner's mark; an empty cell
    /// stands for a draw.
    End(BoardCell),
}

/// The announcement that goes with each state.
pub open spec fn state_text(state: GameState) -> Seq<char> {
    match state {
        GameState::InProgress => "In progress game state"@,
        GameState::End(BoardCell::X) => "Player 1 wins!"@,
        GameState::End(BoardCell::O) => "Player 2 wins!"@,
        GameState::End(BoardCell::Empty) => "The game was a draw"@,
    }
}

impl GameState {
    /// True once the game is over, whether won or drawn.
    pub open spec fn is_over(self) -> bool {
        self is End
    }

    /// Tells whether the game is over.
    pub fn isOver(&self) -> (b: bool)
        ensures
            b == self.is_over(),
    {
        match self {
            GameState::InProgress => false,
            GameState::End(_) => true,
        }
    }

    /// The announcement that goes with this state.
    pub fn message(&self) -> (s: String)
        ensures
            s@ == state_text(*self),
    {
        match self {
            GameState::InProgress => String::from_str("In progress game state"),
            GameState::End(player) => match player {
                BoardCell::X => String::from_str("Player 1 wins!"),
                BoardCell::O => String::from_str("Player 2 wins!"),
                BoardCell::Empty => String::from_str("The game was a draw"),
            },
        }
    }
}

} // verus!
