use anchor_lang::prelude::Pubkey;
use sol_tic_tac_toe::{play, setup_game, Game, GameState, Sign, Tile};

fn id(n: u8) -> Pubkey {
    Pubkey::new_from_array([n; 32])
}

const X: Option<Sign> = Some(Sign::X);
const O: Option<Sign> = Some(Sign::O);
const E: Option<Sign> = None;

#[test]
fn unstarted_parts_are_taken() {
    let game = Game::from_parts([Pubkey::default(); 2], 0, [[E; 3]; 3], GameState::Active);
    assert_eq!(game, Some(Game::new()));
}

#[test]
fn parts_of_every_record_of_a_match_are_taken_back() {
    let mut game = Game::new();
    let cells = [(0u8, 0u8), (0, 1), (0, 2), (1, 0), (2, 1), (1, 1), (2, 2), (2, 0), (1, 2)];
    assert_eq!(setup_game(&mut game, id(1), id(2)), Ok(()));
    for (row, col) in cells {
        let again = Game::from_parts(game.players(), game.turn(), game.board(), game.state());
        assert_eq!(again, Some(game));
        let mover = game.current_player();
        assert_eq!(play(&mut game, mover, Tile { row, col }), Ok(()));
    }
    let again = Game::from_parts(game.players(), game.turn(), game.board(), game.state());
    assert_eq!(again, Some(game));
    assert_eq!(game.state(), GameState::Won { winner: id(1) });
}

#[test]
fn rebuilt_record_plays_on() {
    let board = [[X, O, E], [E, X, E], [E, E, E]];
    let rebuilt = Game::from_parts([id(1), id(2)], 4, board, GameState::Active);
    let mut game = rebuilt.expect("one mark for each move made");
    assert_eq!(game.turn(), 4);
    assert_eq!(game.players(), [id(1), id(2)]);
    assert_eq!(game.board(), board);
    assert_eq!(game.current_player(), id(2));
    assert_eq!(play(&mut game, id(2), Tile { row: 2, col: 2 }), Ok(()));
    assert_eq!(game.board()[2][2], O);
}

#[test]
fn marks_must_match_the_turn() {
    let players = [id(1), id(2)];
    let board = [[X, O, E], [E, X, E], [E, E, E]];
    for turn in [0u8, 1, 3, 5, 255] {
        assert_eq!(Game::from_parts(players, turn, board, GameState::Active), None);
    }
    // An unstarted record holds no mark; a started one may.
    assert_eq!(Game::from_parts(players, 0, [[X, E, E], [E; 3], [E; 3]], GameState::Active), None);
    assert!(Game::from_parts(players, 2, [[X, E, E], [E; 3], [E; 3]], GameState::Active).is_some());
    assert!(Game::from_parts(players, 1, [[E; 3]; 3], GameState::Active).is_some());
}

#[test]
fn state_must_match_the_board() {
    let players = [id(1), id(2)];
    let open = [[X, O, E], [E, X, E], [E, E, E]];
    assert_eq!(Game::from_parts(players, 4, open, GameState::Tie), None);
    assert_eq!(Game::from_parts(players, 4, open, GameState::Won { winner: id(1) }), None);

    let won = [[X, X, X], [O, O, E], [E, E, E]];
    assert_eq!(Game::from_parts(players, 6, won, GameState::Active), None);
    assert_eq!(Game::from_parts(players, 6, won, GameState::Tie), None);
    assert!(Game::from_parts(players, 6, won, GameState::Won { winner: id(1) }).is_some());

    let tied = [[X, O, X], [X, O, O], [O, X, X]];
    assert_eq!(Game::from_parts(players, 10, tied, GameState::Active), None);
    assert_eq!(Game::from_parts(players, 10, tied, GameState::Won { winner: id(1) }), None);
    assert!(Game::from_parts(players, 10, tied, GameState::Tie).is_some());
}

#[test]
fn winner_must_be_the_latest_mover() {
    let players = [id(1), id(2)];
    let won_by_first = [[X, X, X], [O, O, E], [E, E, E]];
    assert_eq!(
        Game::from_parts(players, 6, won_by_first, GameState::Won { winner: id(2) }),
        None
    );
    assert_eq!(
        Game::from_parts(players, 6, won_by_first, GameState::Won { winner: id(3) }),
        None
    );
    let won_by_second = [[X, X, E], [O, O, O], [X, E, E]];
    assert_eq!(
        Game::from_parts(players, 7, won_by_second, GameState::Won { winner: id(1) }),
        None
    );
    assert!(
        Game::from_parts(players, 7, won_by_second, GameState::Won { winner: id(2) }).is_some()
    );
}

#[test]
fn completed_diagonal_is_no_reason_to_stop() {
    let players = [id(1), id(2)];
    let diagonal = [[X, O, O], [E, X, E], [E, E, X]];
    assert!(Game::from_parts(players, 6, diagonal, GameState::Active).is_some());
    assert_eq!(Game::from_parts(players, 6, diagonal, GameState::Won { winner: id(1) }), None);
}
