use anchor_lang::prelude::Pubkey;
use sol_tic_tac_toe::{play, setup_game, Game, GameState, Sign, TicTacToeError, Tile};

fn key(n: u8) -> Pubkey {
    Pubkey::new_from_array([n; 32])
}

fn started() -> Game {
    let mut game = Game::new();
    assert_eq!(setup_game(&mut game, key(1), key(2)), Ok(()));
    game
}

fn tile(row: u8, col: u8) -> Tile {
    Tile { row, col }
}

#[test]
fn start_binds_players_once() {
    let mut game = Game::new();
    assert_eq!(game.turn(), 0);
    assert_eq!(game.start([key(1), key(2)]), Ok(()));
    assert_eq!(game.turn(), 1);
    assert_eq!(game.state(), GameState::Active);
    assert_eq!(game.players(), [key(1), key(2)]);
    assert_eq!(game.board(), [[None; 3]; 3]);

    let before = game;
    assert_eq!(game.start([key(3), key(4)]), Err(TicTacToeError::GameAlreadyStarted));
    assert_eq!(game, before);
}

#[test]
fn first_move_marks_the_cell_and_passes_the_turn() {
    let mut game = started();
    assert_eq!(game.current_player(), key(1));
    assert_eq!(play(&mut game, key(1), tile(0, 0)), Ok(()));
    assert_eq!(game.board()[0][0], Some(Sign::X));
    assert_eq!(game.turn(), 2);
    assert_eq!(game.current_player(), key(2));
    assert_eq!(game.state(), GameState::Active);
}

#[test]
fn completed_row_wins_for_the_mover() {
    let mut game = started();
    assert_eq!(play(&mut game, key(1), tile(0, 0)), Ok(()));
    assert_eq!(play(&mut game, key(2), tile(1, 0)), Ok(()));
    assert_eq!(play(&mut game, key(1), tile(0, 1)), Ok(()));
    assert_eq!(play(&mut game, key(2), tile(1, 1)), Ok(()));
    assert_eq!(game.state(), GameState::Active);
    assert_eq!(play(&mut game, key(1), tile(0, 2)), Ok(()));
    assert_eq!(game.state(), GameState::Won { winner: key(1) });
    assert_eq!(game.turn(), 6);
}

#[test]
fn cell_off_the_board_is_refused() {
    let mut game = started();
    let before = game;
    assert_eq!(play(&mut game, key(1), tile(3, 0)), Err(TicTacToeError::TileOutOfBounds));
    assert_eq!(game, before);
    assert_eq!(play(&mut game, key(1), tile(0, 3)), Err(TicTacToeError::TileOutOfBounds));
    assert_eq!(play(&mut game, key(1), tile(255, 255)), Err(TicTacToeError::TileOutOfBounds));
    assert_eq!(game, before);
}

#[test]
fn player_out_of_turn_is_refused() {
    let mut game = started();
    let before = game;
    assert_eq!(play(&mut game, key(2), tile(0, 0)), Err(TicTacToeError::NotPlayerTurn));
    assert_eq!(game, before);
}

#[test]
fn full_board_without_a_line_is_a_tie() {
    // X O X
    // X O O
    // O X X
    let mut game = started();
    let moves = [(0, 0), (0, 1), (0, 2), (1, 1), (1, 0), (1, 2), (2, 1), (2, 0), (2, 2)];
    for (n, (row, col)) in moves.iter().enumerate() {
        assert_eq!(game.state(), GameState::Active);
        let mover = if n % 2 == 0 { key(1) } else { key(2) };
        assert_eq!(play(&mut game, mover, tile(*row, *col)), Ok(()));
    }
    assert_eq!(game.state(), GameState::Tie);
    assert_eq!(game.turn(), 10);
    let x = Some(Sign::X);
    let o = Some(Sign::O);
    assert_eq!(game.board(), [[x, o, x], [x, o, o], [o, x, x]]);
}
