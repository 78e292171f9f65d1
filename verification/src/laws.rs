//! What holds of every match, whatever requests arrive and in whatever
//! order.
//!
//! The contracts of [`setup_game`](crate::instructions::setup_game) and
//! [`play`](crate::instructions::play) say what one request does to a record.
//! Here a [`Request`] stands for one call of either, and the laws speak of
//! whole histories of requests, over the same model.

use crate::board::{has_line, in_bounds, is_full, lemma_full_iff_nine_marks};
use crate::errors::TicTacToeError;
use crate::game::GameState;
use crate::model::{lemma_after_move, lemma_unstarted_is_active, GameView};
use anchor_lang::prelude::Pubkey;
use vstd::prelude::*;

verus! {

/// One request to the engine.
pub enum Request {
    /// Bind the match to `players`.
    Start { players: Seq<Pubkey> },
    /// Mark `(row, col)` on behalf of `player`.
    Play { player: Pubkey, row: int, col: int },
}

impl GameView {
    /// The request is one that the engine takes: two players to bind, or a
    /// move on a match that has been started.
    pub open spec fn serves(self, req: Request) -> bool {
        match req {
            Request::Start { players } => players.len() == 2,
            Request::Play { .. } => self.turn >= 1,
        }
    }

    /// Why the request is refused, if it is.
    pub open spec fn refusal(self, req: Request) -> Option<TicTacToeError> {
        match req {
            Request::Start { .. } => self.start_refusal(),
            Request::Play { player, row, col } => self.turn_refusal(player, row, col),
        }
    }

    /// The record once the request has been answered: as it was if the
    /// request was refused.
    pub open spec fn after(self, req: Request) -> GameView {
        if self.refusal(req) is Some {
            self
        } else {
            match req {
                Request::Start { players } => self.after_start(players),
                Request::Play { row, col, .. } => self.after_move(row, col),
            }
        }
    }

    /// The record once the requests have been answered one after the other.
    pub open spec fn after_all(self, reqs: Seq<Request>) -> GameView
        decreases reqs.len(),
    {
        if reqs.len() == 0 {
            self
        } else {
            self.after_all(reqs.drop_last()).after(reqs.last())
        }
    }

    /// Each request is one that the engine takes when its turn to be
    /// answered comes.
    pub open spec fn serves_all(self, reqs: Seq<Request>) -> bool
        decreases reqs.len(),
    {
        reqs.len() == 0 || (self.serves_all(reqs.drop_last()) && self.after_all(
            reqs.drop_last(),
        ).serves(reqs.last()))
    }

    /// Each request is a move, and is accepted when its turn to be answered
    /// comes.
    pub open spec fn accepts_all(self, reqs: Seq<Request>) -> bool
        decreases reqs.len(),
    {
        reqs.len() == 0 || (self.accepts_all(reqs.drop_last()) && reqs.last() is Play
            && self.after_all(reqs.drop_last()).refusal(reqs.last()) is None)
    }
}

/// The first turn is the first player's.
pub proof fn lemma_first_turn(g: GameView, players: Seq<Pubkey>)
    requires
        g.well_formed(),
        players.len() == 2,
        g.start_refusal() is None,
    ensures
        g.after_start(players).turn == 1,
        g.after_start(players).current_player_index() == 0,
        g.after_start(players).current_player() == players[0],
{
}

/// An accepted move passes the turn to the other player.
pub proof fn lemma_move_passes_turn(g: GameView, row: int, col: int)
    requires
        g.well_formed(),
        g.turn >= 1,
        g.move_refusal(row, col) is None,
    ensures
        g.current_player_index() == 0 || g.current_player_index() == 1,
        g.after_move(row, col).turn == g.turn + 1,
        g.after_move(row, col).current_player_index() == 1 - g.current_player_index(),
{
}

/// Every answer leaves a record that the engine could have produced, and
/// once started a match stays started.
pub proof fn lemma_after_is_well_formed(g: GameView, req: Request)
    requires
        g.well_formed(),
        g.serves(req),
    ensures
        g.after(req).well_formed(),
        g.after(req).turn >= g.turn,
{
    match req {
        Request::Start { players } => {},
        Request::Play { player, row, col } => {
            if g.refusal(req) is None {
                lemma_after_move(g, row, col);
            }
        },
    }
}

/// The same, after any history of requests.
pub proof fn lemma_after_all_is_well_formed(g: GameView, reqs: Seq<Request>)
    requires
        g.well_formed(),
        g.serves_all(reqs),
    ensures
        g.after_all(reqs).well_formed(),
        g.after_all(reqs).turn >= g.turn,
    decreases reqs.len(),
{
    if reqs.len() > 0 {
        lemma_after_all_is_well_formed(g, reqs.drop_last());
        lemma_after_is_well_formed(g.after_all(reqs.drop_last()), reqs.last());
    }
}

/// A history of accepted moves is one of requests that the engine takes.
pub proof fn lemma_accepted_moves_are_served(g: GameView, reqs: Seq<Request>)
    requires
        g.well_formed(),
        g.turn >= 1,
        g.accepts_all(reqs),
    ensures
        g.serves_all(reqs),
    decreases reqs.len(),
{
    if reqs.len() > 0 {
        lemma_accepted_moves_are_served(g, reqs.drop_last());
        lemma_after_all_is_well_formed(g, reqs.drop_last());
    }
}

/// Turns alternate: over any history of accepted moves the turn counter
/// rises by one with each move, so the players move in turn, the first
/// player on the odd turns and the second on the even ones.
pub proof fn lemma_turns_alternate(g: GameView, reqs: Seq<Request>)
    requires
        g.well_formed(),
        g.turn >= 1,
        g.accepts_all(reqs),
    ensures
        g.after_all(reqs).turn == g.turn + reqs.len(),
        g.after_all(reqs).current_player_index() == (g.current_player_index() + reqs.len()) % 2,
    decreases reqs.len(),
{
    if reqs.len() > 0 {
        lemma_turns_alternate(g, reqs.drop_last());
    }
}

/// A marked cell keeps its mark whatever is requested afterwards.
pub proof fn lemma_marked_cell_stays(g: GameView, reqs: Seq<Request>, row: int, col: int)
    requires
        g.well_formed(),
        g.serves_all(reqs),
        in_bounds(row, col),
        g.board[row][col] is Some,
    ensures
        g.after_all(reqs).board[row][col] == g.board[row][col],
    decreases reqs.len(),
{
    if reqs.len() > 0 {
        let before = g.after_all(reqs.drop_last());
        lemma_marked_cell_stays(g, reqs.drop_last(), row, col);
        lemma_after_all_is_well_formed(g, reqs.drop_last());
        match reqs.last() {
            Request::Start { .. } => {},
            Request::Play { player, row: r, col: c } => {
                if before.refusal(reqs.last()) is None {
                    lemma_after_move(before, r, c);
                }
            },
        }
    }
}

/// A finished match refuses every move as over, and no request changes it.
pub proof fn lemma_finished_is_final(g: GameView, reqs: Seq<Request>)
    requires
        g.well_formed(),
        !(g.state is Active),
    ensures
        forall|player: Pubkey, row: int, col: int|
            #[trigger] g.turn_refusal(player, row, col) == Some(TicTacToeError::GameAlreadyOver),
        forall|row: int, col: int|
            #[trigger] g.move_refusal(row, col) == Some(TicTacToeError::GameAlreadyOver),
        g.after_all(reqs) == g,
    decreases reqs.len(),
{
    if reqs.len() > 0 {
        lemma_finished_is_final(g, reqs.drop_last());
        if g.turn == 0 {
            lemma_unstarted_is_active(g);
        }
    }
}

/// The move that completes a row or a column wins the match for the player
/// who made it.
pub proof fn lemma_completed_line_wins(g: GameView, row: int, col: int)
    requires
        g.well_formed(),
        g.turn >= 1,
        g.move_refusal(row, col) is None,
        has_line(g.after_move(row, col).board),
    ensures
        g.after_move(row, col).state == (GameState::Won { winner: g.current_player() }),
        !has_line(g.board),
{
}

/// The move that fills the board without completing a row or a column ties
/// the match.
pub proof fn lemma_full_board_ties(g: GameView, row: int, col: int)
    requires
        g.well_formed(),
        g.turn >= 1,
        g.move_refusal(row, col) is None,
        is_full(g.after_move(row, col).board),
        !has_line(g.after_move(row, col).board),
    ensures
        g.after_move(row, col).state is Tie,
        g.turn == 9,
{
    lemma_after_move(g, row, col);
    lemma_full_iff_nine_marks(g.after_move(row, col).board);
}

/// A move that neither completes a line nor fills the board leaves the
/// match active.
pub proof fn lemma_open_board_stays_active(g: GameView, row: int, col: int)
    requires
        g.well_formed(),
        g.turn >= 1,
        g.move_refusal(row, col) is None,
        !is_full(g.after_move(row, col).board),
        !has_line(g.after_move(row, col).board),
    ensures
        g.after_move(row, col).state is Active,
{
}

} // verus!
