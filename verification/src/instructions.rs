//! The two requests that the engine serves on behalf of a caller whose
//! identity has been established elsewhere.

use crate::board::{empty_grid, has_line, in_bounds, is_full};
use crate::errors::TicTacToeError;
use crate::game::{Game, GameState, Tile};
use crate::keys::same_key;
use anchor_lang::prelude::Pubkey;
use vstd::prelude::*;

verus! {

/// Starts the match between `player_one`, who moves first, and `player_two`.
/// The two need not differ.  A match that is already started refuses, and
/// stays as it was.
pub fn setup_game(game: &mut Game, player_one: Pubkey, player_two: Pubkey) -> (res: Result<
    (),
    TicTacToeError,
>)
    requires
        old(game).wf(),
    ensures
        final(game).wf(),
        match old(game)@.start_refusal() {
            Some(e) => res == Err::<(), TicTacToeError>(e) && *final(game) == *old(game),
            None => res is Ok && final(game)@ == old(game)@.after_start(
                seq![player_one, player_two],
            ),
        },
        res is Ok ==> final(game)@.state is Active && final(game)@.board == empty_grid(),
        final(game)@.board == old(game)@.board,
{
    let players = [player_one, player_two];
    assert(players@ =~= seq![player_one, player_two]);
    game.start(players)
}

/// Takes the move that `player` submits.  A finished match refuses first,
/// then a player whose turn it is not, then a cell off the board, then a
/// cell that is taken; a refused move changes nothing.
///
/// An accepted move marks the cell for `player` and passes the turn to the
/// other player.  No marked cell changes.  The move that completes a row or
/// a column wins the match for `player`; the move that fills the board
/// without doing so ties it.
pub fn play(game: &mut Game, player: Pubkey, tile: Tile) -> (res: Result<(), TicTacToeError>)
    requires
        old(game).wf(),
        old(game)@.turn >= 1,
    ensures
        final(game).wf(),
        match old(game)@.turn_refusal(player, tile.row as int, tile.col as int) {
            Some(e) => res == Err::<(), TicTacToeError>(e) && *final(game) == *old(game),
            None => res is Ok && final(game)@ == old(game)@.after_move(
                tile.row as int,
                tile.col as int,
            ),
        },
        res is Err ==> *final(game) == *old(game),
        !(old(game)@.state is Active) ==> res == Err::<(), TicTacToeError>(
            TicTacToeError::GameAlreadyOver,
        ),
        forall|r: int, c: int|
            in_bounds(r, c) && old(game)@.board[r][c] is Some
                ==> #[trigger] final(game)@.board[r][c] == old(game)@.board[r][c],
        res is Ok ==> player == old(game)@.current_player(),
        res is Ok ==> final(game)@.current_player_index()
            == 1 - old(game)@.current_player_index(),
        res is Ok && has_line(final(game)@.board) ==> final(game)@.state == (GameState::Won {
            winner: player,
        }),
        res is Ok && !has_line(final(game)@.board) && is_full(final(game)@.board)
            ==> final(game)@.state is Tie,
{
    if !game.is_active() {
        return Err(TicTacToeError::GameAlreadyOver);
    }
    if !same_key(&game.current_player(), &player) {
        return Err(TicTacToeError::NotPlayerTurn);
    }
    game.play(&tile)
}

} // verus!
