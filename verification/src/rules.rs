//! What holds of every move, proved from the model of the board.
use vstd::prelude::*;
use crate::cell::{other_mark, BoardCell};
use crate::error::BoardError;
use crate::grid::{
    antidiagonal_filled, board_full, cell_index, cells_after, column_filled, diagonal_filled,
    has_line, move_result, on_grid, row_filled,
};
use crate::state::GameState;

verus! {

/// How many of the lines that a move at column `x`, row `y` is judged by
/// hold `mark` throughout: the column, the row and the two diagonals.
pub open spec fn lines_filled(cells: Seq<BoardCell>, mark: BoardCell, x: int, y: int) -> nat {
    let column: nat = if column_filled(cells, mark, x) { 1 } else { 0 };
    let row: nat = if row_filled(cells, mark, y) { 1 } else { 0 };
    let diagonal: nat = if diagonal_filled(cells, mark) { 1 } else { 0 };
    let antidiagonal: nat = if antidiagonal_filled(cells, mark) { 1 } else { 0 };
    column + row + diagonal + antidiagonal
}

/// A move is open on a board when it addresses an empty cell of the grid
/// with a player's mark.
pub open spec fn open_move(cells: Seq<BoardCell>, mark: BoardCell, x: int, y: int) -> bool {
    &&& cells.len() == 9
    &&& mark.is_mark()
    &&& on_grid(x, y)
    &&& cells[cell_index(x, y)] == BoardCell::Empty
}

/// How a game stands by its board alone: won by the player who has a
/// line, drawn when the board is full without one, and in progress
/// otherwise.
pub open spec fn standing(cells: Seq<BoardCell>) -> GameState {
    if has_line(cells, BoardCell::X) {
        GameState::End(BoardCell::X)
    } else if has_line(cells, BoardCell::O) {
        GameState::End(BoardCell::O)
    } else if board_full(cells) {
        GameState::End(BoardCell::Empty)
    } else {
        GameState::InProgress
    }
}

/// A move whose column or row is 3 or more is refused as out of bounds,
/// whatever the board holds, and the board stays as it was.
pub proof fn lemma_off_grid_refused(cells: Seq<BoardCell>, mark: BoardCell, x: int, y: int)
    requires
        x >= 3 || y >= 3,
    ensures
        move_result(cells, mark, x, y) == Err::<GameState, BoardError>(BoardError::OutOfBounds),
        cells_after(cells, mark, x, y) == cells,
{
}

/// A move onto a cell that holds a mark is refused as already changed,
/// whoever owns the mark, and the board stays as it was.
pub proof fn lemma_taken_cell_refused(cells: Seq<BoardCell>, mark: BoardCell, x: int, y: int)
    requires
        on_grid(x, y),
        cells[cell_index(x, y)] != BoardCell::Empty,
    ensures
        move_result(cells, mark, x, y) == Err::<GameState, BoardError>(
            BoardError::AlreadyChanged,
        ),
        cells_after(cells, mark, x, y) == cells,
{
}

/// An open move is accepted. It sets the addressed cell to the mark and
/// leaves every other cell alone.
pub proof fn lemma_open_move_accepted(cells: Seq<BoardCell>, mark: BoardCell, x: int, y: int)
    requires
        open_move(cells, mark, x, y),
    ensures
        move_result(cells, mark, x, y) is Ok,
        cells_after(cells, mark, x, y).len() == 9,
        cells_after(cells, mark, x, y)[cell_index(x, y)] == mark,
        forall|i: int|
            0 <= i < 9 && i != cell_index(x, y) ==> cells_after(cells, mark, x, y)[i] == cells[i],
{
}

/// A move is accepted exactly when it is open; the other moves leave the
/// board unchanged.
pub proof fn lemma_refused_move_changes_nothing(
    cells: Seq<BoardCell>,
    mark: BoardCell,
    x: int,
    y: int,
)
    requires
        cells.len() == 9,
        mark.is_mark(),
    ensures
        move_result(cells, mark, x, y) is Ok <==> open_move(cells, mark, x, y),
        move_result(cells, mark, x, y) is Err ==> cells_after(cells, mark, x, y) == cells,
{
}

/// No move empties a cell or changes a mark that is already placed.
pub proof fn lemma_marks_stay(cells: Seq<BoardCell>, mark: BoardCell, x: int, y: int)
    requires
        cells.len() == 9,
    ensures
        forall|i: int|
            0 <= i < 9 && cells[i] != BoardCell::Empty ==> cells_after(cells, mark, x, y)[i]
                == cells[i],
{
}

/// After an open move, a second move onto the same cell is refused as
/// already changed, whichever player makes it, and leaves the board as the
/// first move left it.
pub proof fn lemma_second_move_refused(
    cells: Seq<BoardCell>,
    first: BoardCell,
    second: BoardCell,
    x: int,
    y: int,
)
    requires
        open_move(cells, first, x, y),
    ensures
        move_result(cells, first, x, y) is Ok,
        ({
            let marked = cells_after(cells, first, x, y);
            &&& move_result(marked, second, x, y) == Err::<GameState, BoardError>(
                BoardError::AlreadyChanged,
            )
            &&& cells_after(marked, second, x, y) == marked
        }),
{
}

/// A line that a move fills runs through the cell of the move: it is the
/// column or the row of the move, or a diagonal that the cell lies on.
pub proof fn lemma_new_line_runs_through_move(
    cells: Seq<BoardCell>,
    mark: BoardCell,
    x: int,
    y: int,
)
    requires
        open_move(cells, mark, x, y),
        !has_line(cells, mark),
        has_line(cells_after(cells, mark, x, y), mark),
    ensures
        ({
            let after = cells_after(cells, mark, x, y);
            ||| column_filled(after, mark, x)
            ||| row_filled(after, mark, y)
            ||| x == y && diagonal_filled(after, mark)
            ||| x + y == 2 && antidiagonal_filled(after, mark)
        }),
{
    let after = cells_after(cells, mark, x, y);
    if exists|c: int| 0 <= c < 3 && column_filled(after, mark, c) {
        let c = choose|c: int| 0 <= c < 3 && column_filled(after, mark, c);
        assert(!column_filled(cells, mark, c));
        assert(c == x);
    } else if exists|r: int| 0 <= r < 3 && row_filled(after, mark, r) {
        let r = choose|r: int| 0 <= r < 3 && row_filled(after, mark, r);
        assert(!row_filled(cells, mark, r));
        assert(r == y);
    }
}

/// An open move ends the game for its player only if the board then shows
/// a line of that player's mark: no win is declared before a line is full.
pub proof fn lemma_win_needs_line(cells: Seq<BoardCell>, mark: BoardCell, x: int, y: int)
    requires
        open_move(cells, mark, x, y),
        move_result(cells, mark, x, y) == Ok::<GameState, BoardError>(GameState::End(mark)),
    ensures
        has_line(cells_after(cells, mark, x, y), mark),
        lines_filled(cells_after(cells, mark, x, y), mark, x, y) >= 1,
{
    let after = cells_after(cells, mark, x, y);
    if column_filled(after, mark, x) {
        assert(0 <= x < 3 && column_filled(after, mark, x));
    } else if row_filled(after, mark, y) {
        assert(0 <= y < 3 && row_filled(after, mark, y));
    }
}

/// On a board that shows no line of a player's mark, an open move of that
/// player ends the game in the player's favour exactly when it fills a
/// line: at the move that completes the line, and at no earlier one.
pub proof fn lemma_win_exactly_on_completion(
    cells: Seq<BoardCell>,
    mark: BoardCell,
    x: int,
    y: int,
)
    requires
        open_move(cells, mark, x, y),
        !has_line(cells, mark),
    ensures
        move_result(cells, mark, x, y) == Ok::<GameState, BoardError>(GameState::End(mark))
            <==> has_line(cells_after(cells, mark, x, y), mark),
{
    if has_line(cells_after(cells, mark, x, y), mark) {
        lemma_new_line_runs_through_move(cells, mark, x, y);
    }
    if move_result(cells, mark, x, y) == Ok::<GameState, BoardError>(GameState::End(mark)) {
        lemma_win_needs_line(cells, mark, x, y);
    }
}

/// A move gives the other player no line: a line of a mark that shows
/// after another mark was placed was there before.
pub proof fn lemma_no_line_for_the_other(
    cells: Seq<BoardCell>,
    mark: BoardCell,
    other: BoardCell,
    x: int,
    y: int,
)
    requires
        open_move(cells, mark, x, y),
        other != mark,
        has_line(cells_after(cells, mark, x, y), other),
    ensures
        has_line(cells, other),
{
    let after = cells_after(cells, mark, x, y);
    if exists|c: int| 0 <= c < 3 && column_filled(after, other, c) {
        let c = choose|c: int| 0 <= c < 3 && column_filled(after, other, c);
        assert(column_filled(cells, other, c));
    } else if exists|r: int| 0 <= r < 3 && row_filled(after, other, r) {
        let r = choose|r: int| 0 <= r < 3 && row_filled(after, other, r);
        assert(row_filled(cells, other, r));
    }
}

/// While a game is in progress, each accepted move is answered with the
/// standing of the board that it leaves, and never leaves a line to both
/// players: what is looked at around the move decides as a look at the
/// whole board would.
pub proof fn lemma_move_keeps_standing(cells: Seq<BoardCell>, mark: BoardCell, x: int, y: int)
    requires
        open_move(cells, mark, x, y),
        standing(cells) == GameState::InProgress,
    ensures
        ({
            let after = cells_after(cells, mark, x, y);
            &&& move_result(cells, mark, x, y) == Ok::<GameState, BoardError>(standing(after))
            &&& !(has_line(after, BoardCell::X) && has_line(after, BoardCell::O))
        }),
{
    let after = cells_after(cells, mark, x, y);
    let other = other_mark(mark);
    if has_line(after, other) {
        lemma_no_line_for_the_other(cells, mark, other, x, y);
    }
    lemma_win_exactly_on_completion(cells, mark, x, y);
    if !has_line(after, mark) {
        assert(!(0 <= x < 3 && column_filled(after, mark, x)));
        assert(!(0 <= y < 3 && row_filled(after, mark, y)));
    }
}

/// An open move that fills the last empty cell without leaving a line of
/// its mark through the board is answered with a draw.
pub proof fn lemma_full_board_without_line_is_draw(
    cells: Seq<BoardCell>,
    mark: BoardCell,
    x: int,
    y: int,
)
    requires
        open_move(cells, mark, x, y),
        board_full(cells_after(cells, mark, x, y)),
        !has_line(cells_after(cells, mark, x, y), mark),
    ensures
        move_result(cells, mark, x, y) == Ok::<GameState, BoardError>(
            GameState::End(BoardCell::Empty),
        ),
{
    let after = cells_after(cells, mark, x, y);
    assert(!(0 <= x < 3 && column_filled(after, mark, x)));
    assert(!(0 <= y < 3 && row_filled(after, mark, y)));
}

/// A draw is declared only on a full board, and the game goes on only
/// while a cell is empty; in neither case does the move fill a line.
pub proof fn lemma_draw_needs_full_board(cells: Seq<BoardCell>, mark: BoardCell, x: int, y: int)
    requires
        open_move(cells, mark, x, y),
    ensures
        ({
            let after = cells_after(cells, mark, x, y);
            let answer = move_result(cells, mark, x, y);
            &&& answer == Ok::<GameState, BoardError>(GameState::End(BoardCell::Empty))
                ==> board_full(after) && lines_filled(after, mark, x, y) == 0
            &&& answer == Ok::<GameState, BoardError>(GameState::InProgress)
                ==> !board_full(after) && lines_filled(after, mark, x, y) == 0
        }),
{
}

/// A move that fills a line is answered with the win of its player,
/// whether it fills one line or several at once: the answer is the same
/// whichever of the lines is found first.
pub proof fn lemma_winner_is_unambiguous(cells: Seq<BoardCell>, mark: BoardCell, x: int, y: int)
    requires
        open_move(cells, mark, x, y),
        lines_filled(cells_after(cells, mark, x, y), mark, x, y) >= 1,
    ensures
        move_result(cells, mark, x, y) == Ok::<GameState, BoardError>(GameState::End(mark)),
{
}

} // verus!
