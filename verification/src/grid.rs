//! The board as a sequence of nine cells: its lines, the answer to a move,
//! and its drawing.
use vstd::prelude::*;
use crate::cell::{symbol_of, BoardCell};
use crate::error::BoardError;
use crate::state::GameState;

verus! {

/// Column `x` and row `y` both lie on the grid.
pub open spec fn on_grid(x: int, y: int) -> bool {
    0 <= x < 3 && 0 <= y < 3
}

/// Position of the cell at column `x`, row `y` in the row-major sequence.
pub open spec fn cell_index(x: int, y: int) -> int {
    x + 3 * y
}

/// The board before the first move.
pub open spec fn empty_cells() -> Seq<BoardCell> {
    Seq::new(9, |i: int| BoardCell::Empty)
}

/// The three cells of column `x` all hold `mark`.
pub open spec fn column_filled(cells: Seq<BoardCell>, mark: BoardCell, x: int) -> bool {
    cells[x] == mark && cells[x + 3] == mark && cells[x + 6] == mark
}

/// The three cells of row `y` all hold `mark`.
pub open spec fn row_filled(cells: Seq<BoardCell>, mark: BoardCell, y: int) -> bool {
    cells[3 * y] == mark && cells[3 * y + 1] == mark && cells[3 * y + 2] == mark
}

/// The diagonal from (0,0) to (2,2) holds `mark` throughout.
pub open spec fn diagonal_filled(cells: Seq<BoardCell>, mark: BoardCell) -> bool {
    cells[0] == mark && cells[4] == mark && cells[8] == mark
}

/// The diagonal from (2,0) to (0,2) holds `mark` throughout.
pub open spec fn antidiagonal_filled(cells: Seq<BoardCell>, mark: BoardCell) -> bool {
    cells[2] == mark && cells[4] == mark && cells[6] == mark
}

/// No cell is empty.
pub open spec fn board_full(cells: Seq<BoardCell>) -> bool {
    forall|i: int| 0 <= i < 9 ==> cells[i] != BoardCell::Empty
}

/// One of the eight lines of the grid holds `mark` throughout.
pub open spec fn has_line(cells: Seq<BoardCell>, mark: BoardCell) -> bool {
    ||| exists|x: int| 0 <= x < 3 && column_filled(cells, mark, x)
    ||| exists|y: int| 0 <= y < 3 && row_filled(cells, mark, y)
    ||| diagonal_filled(cells, mark)
    ||| antidiagonal_filled(cells, mark)
}

/// How the game stands once `mark` has been placed at column `x`, row `y`
/// and `cells` is the board with that mark on it. The column and the row of
/// the move and both diagonals are looked at; a full board without such a
/// line is a draw.
pub open spec fn verdict(cells: Seq<BoardCell>, mark: BoardCell, x: int, y: int) -> GameState {
    if column_filled(cells, mark, x) || row_filled(cells, mark, y) || diagonal_filled(cells, mark)
        || antidiagonal_filled(cells, mark) {
        GameState::End(mark)
    } else if board_full(cells) {
        GameState::End(BoardCell::Empty)
    } else {
        GameState::InProgress
    }
}

/// The board that a move leaves behind: the addressed cell takes the mark
/// if the move is on the grid and the cell is empty, and nothing changes
/// otherwise.
pub open spec fn cells_after(cells: Seq<BoardCell>, mark: BoardCell, x: int, y: int) -> Seq<
    BoardCell,
> {
    if on_grid(x, y) && cells[cell_index(x, y)] == BoardCell::Empty {
        cells.update(cell_index(x, y), mark)
    } else {
        cells
    }
}

/// What a move answers: a refusal when it leaves the grid or addresses a
/// taken cell, the bounds being looked at first, and otherwise the verdict
/// on the board with the mark placed.
pub open spec fn move_result(cells: Seq<BoardCell>, mark: BoardCell, x: int, y: int) -> Result<
    GameState,
    BoardError,
> {
    if !on_grid(x, y) {
        Err(BoardError::OutOfBounds)
    } else if cells[cell_index(x, y)] != BoardCell::Empty {
        Err(BoardError::AlreadyChanged)
    } else {
        Ok(verdict(cells.update(cell_index(x, y), mark), mark, x, y))
    }
}

/// The drawing of a board: three rows of cells parted by `|`, with a rule
/// of `-+-+-` between the rows, each line closed by a newline.
pub open spec fn drawing(cells: Seq<BoardCell>) -> Seq<char> {
    row_drawing(cells, 0) + rule_drawing() + row_drawing(cells, 1) + rule_drawing() + row_drawing(
        cells,
        2,
    )
}

/// One row of the drawing.
pub open spec fn row_drawing(cells: Seq<BoardCell>, y: int) -> Seq<char> {
    seq![
        symbol_of(cells[3 * y]),
        '|',
        symbol_of(cells[3 * y + 1]),
        '|',
        symbol_of(cells[3 * y + 2]),
        '\n',
    ]
}

/// The rule between two rows of the drawing.
pub open spec fn rule_drawing() -> Seq<char> {
    seq!['-', '+', '-', '+', '-', '\n']
}

} // verus!
