use tictactoe::board::TicTacToeBoard;
use tictactoe::cell::BoardCell;
use tictactoe::error::BoardError;
use tictactoe::game::{Game, TurnError};
use tictactoe::input::InputError;
use tictactoe::number::NumberError;
use tictactoe::state::GameState;

fn drawing(board: &TicTacToeBoard) -> String {
    board.render()
}

#[test]
fn new_game_starts_with_the_first_player() {
    let game = Game::new();
    assert_eq!(game.player(), BoardCell::X);
    assert_eq!(game.state(), GameState::InProgress);
    assert!(!game.isOver());
    assert_eq!(drawing(game.board()), " | | \n-+-+-\n | | \n-+-+-\n | | \n");
    assert_eq!(game.prompt(), "Player 1: ");
}

#[test]
fn players_alternate() {
    let mut game = Game::new();
    assert_eq!(game.turn("0 0\n"), Ok(GameState::InProgress));
    assert_eq!(game.player(), BoardCell::O);
    assert_eq!(game.prompt(), "Player 2: ");
    assert_eq!(game.turn("1 0\n"), Ok(GameState::InProgress));
    assert_eq!(game.player(), BoardCell::X);
    assert_eq!(game.prompt(), "Player 1: ");
    assert_eq!(drawing(game.board()), "X|O| \n-+-+-\n | | \n-+-+-\n | | \n");
}

#[test]
fn three_tokens_leave_the_game_as_it_was() {
    let mut game = Game::new();
    assert_eq!(game.turn("1 1\n"), Ok(GameState::InProgress));
    let before = drawing(game.board());
    assert_eq!(game.turn("1 1 1"), Err(TurnError::Input(InputError::ArgumentCount)));
    assert_eq!(drawing(game.board()), before);
    assert_eq!(game.player(), BoardCell::O);
    assert_eq!(game.state(), GameState::InProgress);
    assert_eq!(
        TurnError::Input(InputError::ArgumentCount).message(),
        "Incorrect number of arguments"
    );
}

#[test]
fn letter_leaves_the_game_as_it_was() {
    let mut game = Game::new();
    let before = drawing(game.board());
    let refused = game.turn("a 1");
    assert_eq!(refused, Err(TurnError::Input(InputError::Column(NumberError::InvalidDigit))));
    assert_eq!(drawing(game.board()), before);
    assert_eq!(game.player(), BoardCell::X);
    assert_eq!(game.state(), GameState::InProgress);
    match refused {
        Err(e) => assert_eq!(e.message(), "invalid digit found in string"),
        Ok(_) => panic!("a letter was read as a column"),
    }
}

#[test]
fn move_off_the_grid_keeps_the_turn() {
    let mut game = Game::new();
    assert_eq!(game.turn("3 0\n"), Err(TurnError::Board(BoardError::OutOfBounds)));
    assert_eq!(game.turn("0 3\n"), Err(TurnError::Board(BoardError::OutOfBounds)));
    assert_eq!(game.player(), BoardCell::X);
    assert_eq!(drawing(game.board()), " | | \n-+-+-\n | | \n-+-+-\n | | \n");
    assert_eq!(
        TurnError::Board(BoardError::OutOfBounds).message(),
        "Invalid index, max range of x and y is 2"
    );
}

#[test]
fn move_onto_a_mark_keeps_the_turn() {
    let mut game = Game::new();
    assert_eq!(game.turn("2 2\n"), Ok(GameState::InProgress));
    assert_eq!(game.turn("2 2\n"), Err(TurnError::Board(BoardError::AlreadyChanged)));
    assert_eq!(game.player(), BoardCell::O);
    assert_eq!(game.turn("2 1\n"), Ok(GameState::InProgress));
    assert_eq!(game.turn("2 1\n"), Err(TurnError::Board(BoardError::AlreadyChanged)));
    assert_eq!(game.player(), BoardCell::X);
    assert_eq!(drawing(game.board()), " | | \n-+-+-\n | |O\n-+-+-\n | |X\n");
}

#[test]
fn first_player_wins_the_top_row() {
    let mut game = Game::new();
    for line in ["0 0\n", "0 1\n", "1 0\n", "0 2\n"] {
        assert_eq!(game.turn(line), Ok(GameState::InProgress));
    }
    assert_eq!(game.turn("2 0\n"), Ok(GameState::End(BoardCell::X)));
    assert!(game.isOver());
    assert_eq!(game.state(), GameState::End(BoardCell::X));
    assert_eq!(game.player(), BoardCell::X);
    assert_eq!(game.state().message(), "Player 1 wins!");
}

#[test]
fn first_player_wins_the_diagonal() {
    let mut game = Game::new();
    for line in ["0 0", "1 0", "1 1", "2 0"] {
        assert_eq!(game.turn(line), Ok(GameState::InProgress));
    }
    assert_eq!(game.turn("2 2"), Ok(GameState::End(BoardCell::X)));
}

#[test]
fn second_player_wins_with_bad_lines_in_between() {
    let mut game = Game::new();
    assert_eq!(game.turn("1 1\n"), Ok(GameState::InProgress));
    assert_eq!(game.turn("1 1\n"), Err(TurnError::Board(BoardError::AlreadyChanged)));
    assert_eq!(game.turn("0 0\n"), Ok(GameState::InProgress));
    assert_eq!(game.turn("\n"), Err(TurnError::Input(InputError::ArgumentCount)));
    assert_eq!(game.turn("2 1\n"), Ok(GameState::InProgress));
    assert_eq!(
        game.turn("0 x\n"),
        Err(TurnError::Input(InputError::Row(NumberError::InvalidDigit)))
    );
    assert_eq!(game.turn("0 1\n"), Ok(GameState::InProgress));
    assert_eq!(game.turn("2 2\n"), Ok(GameState::InProgress));
    assert_eq!(game.turn("0 2\n"), Ok(GameState::End(BoardCell::O)));
    assert_eq!(game.state().message(), "Player 2 wins!");
    assert_eq!(game.player(), BoardCell::O);
}

#[test]
fn full_game_without_line_is_drawn() {
    let mut game = Game::new();
    for line in ["0 0", "0 1", "0 2", "1 1", "1 0", "2 0", "1 2", "2 2"] {
        assert_eq!(game.turn(line), Ok(GameState::InProgress));
        assert!(!game.isOver());
    }
    assert_eq!(game.turn("2 1"), Ok(GameState::End(BoardCell::Empty)));
    assert!(game.isOver());
    assert!(game.board().isFull());
    assert_eq!(game.state().message(), "The game was a draw");
}

#[test]
fn play_takes_coordinates() {
    let mut game = Game::new();
    assert_eq!(game.play(1, 1), Ok(GameState::InProgress));
    assert_eq!(game.play(1, 1), Err(BoardError::AlreadyChanged));
    assert_eq!(game.play(5, 1), Err(BoardError::OutOfBounds));
    assert_eq!(game.player(), BoardCell::O);
    assert_eq!(game.play(0, 1), Ok(GameState::InProgress));
    assert_eq!(game.board().cell(1, 1), BoardCell::X);
    assert_eq!(game.board().cell(0, 1), BoardCell::O);
}
