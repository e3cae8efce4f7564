//! A game between two players: whose turn it is, how the game stands, and
//! what a line of input does to both.
use vstd::prelude::*;
use vstd::string::*;
use crate::board::TicTacToeBoard;
use crate::cell::{other_mark, BoardCell};
use crate::error::{error_text, BoardError};
use crate::grid::{board_full, cells_after, empty_cells, has_line, move_result};
use crate::input::{input_error_text, parseMove, read_move, InputError};
use crate::rules::{lemma_move_keeps_standing, standing};
use crate::state::GameState;

verus! {

/// Why a turn was not taken. The same player is asked again.
#[derive(Copy, Clone, Debug, PartialEq, Eq, Structural)]
pub enum TurnError {
    /// The line of input names no move.
    Input(InputError),
    /// The board refused the move.
    Board(BoardError),
}

/// The text shown to the player when a turn was not taken.
pub open spec fn turn_error_text(e: TurnError) -> Seq<char> {
    match e {
        TurnError::Input(input) => input_error_text(input),
        TurnError::Board(board) => error_text(board),
    }
}

impl TurnError {
    /// The text shown to the player for this error.
    pub fn message(&self) -> (s: String)
        ensures
            s@ == turn_error_text(*self),
    {
        match self {
            TurnError::Input(input) => input.message(),
            TurnError::Board(board) => board.message(),
        }
    }
}

/// A game as its players see it: the board, the mark of the player whose
/// turn it is, and how the game stands.
pub ghost struct GameView {
    pub cells: Seq<BoardCell>,
    pub player: BoardCell,
    pub state: GameState,
}

/// The words that ask each player for a move.
pub open spec fn prompt_text(player: BoardCell) -> Seq<char> {
    match player {
        BoardCell::X => "Player 1: "@,
        BoardCell::O => "Player 2: "@,
        BoardCell::Empty => ""@,
    }
}

/// A game before the first move: an empty board, the first player to move.
pub open spec fn opening() -> GameView {
    GameView { cells: empty_cells(), player: BoardCell::X, state: GameState::InProgress }
}

/// What the player to move is answered when asking for the cell at column
/// `x`, row `y`.
pub open spec fn play_result(game: GameView, x: int, y: int) -> Result<GameState, BoardError> {
    move_result(game.cells, game.player, x, y)
}

/// The game after the player to move has asked for the cell at column `x`,
/// row `y`. A refused move changes nothing. An accepted one is placed; the
/// turn then passes to the other player unless the move ended the game.
pub open spec fn after_play(game: GameView, x: int, y: int) -> GameView {
    match play_result(game, x, y) {
        Err(_) => game,
        Ok(state) => GameView {
            cells: cells_after(game.cells, game.player, x, y),
            player: if state.is_over() {
                game.player
            } else {
                other_mark(game.player)
            },
            state,
        },
    }
}

/// What the player to move is answered on a line of input.
pub open spec fn turn_result(game: GameView, line: Seq<char>) -> Result<GameState, TurnError> {
    match read_move(line) {
        Err(e) => Err(TurnError::Input(e)),
        Ok((x, y)) => match play_result(game, x as int, y as int) {
            Err(e) => Err(TurnError::Board(e)),
            Ok(state) => Ok(state),
        },
    }
}

/// The game after a line of input: unchanged if the line names no move,
/// and as after that move otherwise.
pub open spec fn after_turn(game: GameView, line: Seq<char>) -> GameView {
    match read_move(line) {
        Err(_) => game,
        Ok((x, y)) => after_play(game, x as int, y as int),
    }
}

/// The invariant of a game: it is a player's turn, no two players have a
/// line each, and the state is the one that the board shows.
pub open spec fn sound(game: GameView) -> bool {
    &&& game.cells.len() == 9
    &&& game.player.is_mark()
    &&& !(has_line(game.cells, BoardCell::X) && has_line(game.cells, BoardCell::O))
    &&& game.state == standing(game.cells)
}

/// The opening position is sound.
pub proof fn lemma_opening_is_sound()
    ensures
        sound(opening()),
        !opening().state.is_over(),
{
    assert(empty_cells()[0] == BoardCell::Empty);
    assert(!board_full(empty_cells()));
}

/// A move in a sound game that is not over leaves a sound game: whether
/// the move is refused or placed, the state still is what the board shows.
pub proof fn lemma_play_keeps_sound(game: GameView, x: int, y: int)
    requires
        sound(game),
        !game.state.is_over(),
    ensures
        sound(after_play(game, x, y)),
        play_result(game, x, y) matches Ok(state) ==> after_play(game, x, y).state == state,
{
    if play_result(game, x, y) is Ok {
        lemma_move_keeps_standing(game.cells, game.player, x, y);
    }
}

/// A line of input leaves a sound game sound, whatever the line holds.
pub proof fn lemma_turn_keeps_sound(game: GameView, line: Seq<char>)
    requires
        sound(game),
        !game.state.is_over(),
    ensures
        sound(after_turn(game, line)),
        turn_result(game, line) is Err ==> after_turn(game, line) == game,
{
    match read_move(line) {
        Err(_) => {},
        Ok((x, y)) => {
            lemma_play_keeps_sound(game, x as int, y as int);
        },
    }
}

/// The game that a sequence of lines of input leads to, one line a turn.
/// Once the game is over, no line changes it any more.
pub open spec fn after_lines(game: GameView, lines: Seq<Seq<char>>) -> GameView
    decreases lines.len(),
{
    if lines.len() == 0 {
        game
    } else {
        let before = after_lines(game, lines.drop_last());
        if before.state.is_over() {
            before
        } else {
            after_turn(before, lines.last())
        }
    }
}

/// Whatever the players enter, the game stays sound: at every moment the
/// state is the one that the board shows, so that a game is in progress
/// exactly as long as no player has a line and a cell is empty, is won by
/// the one player who has a line, and is drawn on a full board without one.
pub proof fn lemma_every_game_is_sound(lines: Seq<Seq<char>>)
    ensures
        sound(after_lines(opening(), lines)),
    decreases lines.len(),
{
    if lines.len() == 0 {
        lemma_opening_is_sound();
    } else {
        lemma_every_game_is_sound(lines.drop_last());
        let before = after_lines(opening(), lines.drop_last());
        if !before.state.is_over() {
            lemma_turn_keeps_sound(before, lines.last());
        }
    }
}

/// A game of two players taking turns on one board.
pub struct Game {
    board: TicTacToeBoard,
    player: BoardCell,
    state: GameState,
}

impl View for Game {
    type V = GameView;

    closed spec fn view(&self) -> GameView {
        GameView { cells: self.board@, player: self.player, state: self.state }
    }
}

impl Game {
    /// The invariant that every game built and moved by this type keeps.
    pub open spec fn wf(&self) -> bool {
        sound(self@)
    }

    /// A game before the first move.
    pub fn new() -> (game: Game)
        ensures
            game@ == opening(),
            game.wf(),
    {
        proof {
            lemma_opening_is_sound();
        }
        Game {
            board: TicTacToeBoard::default(),
            player: BoardCell::X,
            state: GameState::InProgress,
        }
    }

    /// The board as it stands.
    pub fn board(&self) -> (board: &TicTacToeBoard)
        ensures
            board@ == self@.cells,
    {
        &self.board
    }

    /// The mark of the player whose turn it is; once the game is over, of
    /// the player who moved last.
    pub fn player(&self) -> (player: BoardCell)
        ensures
            player == self@.player,
    {
        self.player
    }

    /// How the game stands.
    pub fn state(&self) -> (state: GameState)
        ensures
            state == self@.state,
    {
        self.state
    }

    /// Tells whether the game is over.
    pub fn isOver(&self) -> (b: bool)
        ensures
            b == self@.state.is_over(),
    {
        self.state.isOver()
    }

    /// The words that ask the player to move for a line of input.
    pub fn prompt(&self) -> (s: String)
        ensures
            s@ == prompt_text(self@.player),
    {
        match self.player {
            BoardCell::X => String::from_str("Player 1: "),
            BoardCell::O => String::from_str("Player 2: "),
            BoardCell::Empty => String::from_str(""),
        }
    }

    /// Places the mark of the player to move at column `x`, row `y`.
    ///
    /// A refused move leaves the game as it was, and the same player is to
    /// move again. After an accepted move that does not end the game the
    /// other player is to move.
    pub fn play(&mut self, x: usize, y: usize) -> (r: Result<GameState, BoardError>)
        requires
            old(self).wf(),
            !old(self)@.state.is_over(),
        ensures
            final(self).wf(),
            r == play_result(old(self)@, x as int, y as int),
            final(self)@ == after_play(old(self)@, x as int, y as int),
    {
        proof {
            lemma_play_keeps_sound(self@, x as int, y as int);
        }
        match self.board.changeState(self.player, (x, y)) {
            Ok(state) => {
                self.state = state;
                if !state.isOver() {
                    self.player = self.player.opponent();
                }
                Ok(state)
            },
            Err(e) => Err(e),
        }
    }

    /// Takes a line of input as the move of the player to move.
    ///
    /// A line that names no move, and a move that the board refuses, leave
    /// the game as it was: the error says why, and the same player is to
    /// move again.
    pub fn turn(&mut self, line: &str) -> (r: Result<GameState, TurnError>)
        requires
            old(self).wf(),
            !old(self)@.state.is_over(),
        ensures
            final(self).wf(),
            r == turn_result(old(self)@, line@),
            final(self)@ == after_turn(old(self)@, line@),
    {
        match parseMove(line) {
            Err(e) => Err(TurnError::Input(e)),
            Ok((x, y)) => match self.play(x, y) {
                Err(e) => Err(TurnError::Board(e)),
                Ok(state) => Ok(state),
            },
        }
    }
}

} // verus!
