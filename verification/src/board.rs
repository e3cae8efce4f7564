//! The board: nine cells, and the one operation that marks them.
use vstd::prelude::*;
use vstd::string::*;
use crate::cell::BoardCell;
use crate::error::BoardError;
use crate::grid::{
    board_full, cell_index, cells_after, column_filled, drawing, empty_cells, move_result,
    on_grid, row_drawing, row_filled, rule_drawing,
};
use crate::state::GameState;

verus! {

/// The 3×3 grid, kept row by row: the cell at column `x`, row `y` is the
/// `x + 3·y`-th of nine.
pub struct TicTacToeBoard {
    cells: [BoardCell; 9],
}

impl View for TicTacToeBoard {
    type V = Seq<BoardCell>;

    closed spec fn view(&self) -> Seq<BoardCell> {
        self.cells@
    }
}

impl Default for TicTacToeBoard {
    /// A board on which no cell is marked.
    fn default() -> (board: Self)
        ensures
            board@ == empty_cells(),
    {
        let board = Self {
            cells: [
                BoardCell::Empty,
                BoardCell::Empty,
                BoardCell::Empty,
                BoardCell::Empty,
                BoardCell::Empty,
                BoardCell::Empty,
                BoardCell::Empty,
                BoardCell::Empty,
                BoardCell::Empty,
            ],
        };
        assert(board@ =~= empty_cells());
        board
    }
}

impl TicTacToeBoard {
    /// A board always has nine cells.
    pub proof fn lemma_nine_cells(&self)
        ensures
            self@.len() == 9,
    {
    }

    /// The content of the cell at column `x`, row `y`.
    pub fn cell(&self, x: usize, y: usize) -> (c: BoardCell)
        requires
            on_grid(x as int, y as int),
        ensures
            c == self@[cell_index(x as int, y as int)],
    {
        self.cells[x + 3 * y]
    }

    /// Tells whether every cell holds a mark.
    pub fn isFull(&self) -> (boardFull: bool)
        ensures
            boardFull == board_full(self@),
    {
        let mut i: usize = 0;
        while i < 9
            invariant
                i <= 9,
                forall|j: int| 0 <= j < i ==> self@[j] != BoardCell::Empty,
            decreases 9 - i,
        {
            if self.cells[i] == BoardCell::Empty {
                return false;
            }
            i += 1;
        }
        true
    }

    /// Tells whether column `x` holds `cellState` in all three rows.
    pub fn checkVertical(&self, cellState: BoardCell, x: usize) -> (b: bool)
        requires
            x < 3,
        ensures
            b == column_filled(self@, cellState, x as int),
    {
        self.cells[x] == cellState && self.cells[x + 3] == cellState && self.cells[x + 6]
            == cellState
    }

    /// Tells whether row `y` holds `cellState` in all three columns.
    pub fn checkHorizontal(&self, cellState: BoardCell, y: usize) -> (b: bool)
        requires
            y < 3,
        ensures
            b == row_filled(self@, cellState, y as int),
    {
        let x = 3 * y;
        self.cells[x] == cellState && self.cells[x + 1] == cellState && self.cells[x + 2]
            == cellState
    }

    /// Appends the drawing of row `y` to `out`.
    fn drawRow(&self, out: &mut String, y: usize)
        requires
            y < 3,
        ensures
            final(out)@ == old(out)@ + row_drawing(self@, y as int),
    {
        proof {
            reveal_strlit("|");
            reveal_strlit("\n");
        }
        let x = 3 * y;
        out.append(self.cells[x].symbol());
        out.append("|");
        out.append(self.cells[x + 1].symbol());
        out.append("|");
        out.append(self.cells[x + 2].symbol());
        out.append("\n");
        assert(out@ =~= old(out)@ + row_drawing(self@, y as int));
    }

    /// Draws the board as text: the three rows from the top, each cell as
    /// its player's letter or a blank, with `|` between the cells of a row
    /// and a line `-+-+-` between two rows.
    pub fn render(&self) -> (s: String)
        ensures
            s@ == drawing(self@),
    {
        proof {
            reveal_strlit("-+-+-\n");
        }
        let mut s = String::new();
        self.drawRow(&mut s, 0);
        s.append("-+-+-\n");
        self.drawRow(&mut s, 1);
        s.append("-+-+-\n");
        self.drawRow(&mut s, 2);
        assert(s@ =~= drawing(self@));
        s
    }

    /// Places `cellState` at `position`, a column and a row, and says how
    /// the game stands afterwards.
    ///
    /// A move off the grid is refused with `OutOfBounds`, a move onto a
    /// marked cell with `AlreadyChanged`; either leaves the board as it
    /// was. An accepted move changes the addressed cell and no other.
    pub fn changeState(&mut self, cellState: BoardCell, position: (usize, usize)) -> (r: Result<
        GameState,
        BoardError,
    >)
        requires
            cellState.is_mark(),
        ensures
            r == move_result(old(self)@, cellState, position.0 as int, position.1 as int),
            final(self)@ == cells_after(
                old(self)@,
                cellState,
                position.0 as int,
                position.1 as int,
            ),
    {
        let (x, y) = position;
        if x >= 3 || y >= 3 {
            return Err(BoardError::OutOfBounds);
        }
        let index = x + 3 * y;
        match self.cells[index] {
            BoardCell::Empty => {
                self.cells[index] = cellState;
                if self.checkVertical(cellState, x) {
                    return Ok(GameState::End(cellState));
                }
                if self.checkHorizontal(cellState, y) {
                    return Ok(GameState::End(cellState));
                }
                if self.cells[0] == cellState && self.cells[4] == cellState && self.cells[8]
                    == cellState {
                    return Ok(GameState::End(cellState));
                }
                if self.cells[2] == cellState && self.cells[4] == cellState && self.cells[6]
                    == cellState {
                    return Ok(GameState::End(cellState));
                }
                if self.isFull() {
                    return Ok(GameState::End(BoardCell::Empty));
                }
                Ok(GameState::InProgress)
            },
            _ => Err(BoardError::AlreadyChanged),
        }
    }
}

} // verus!
