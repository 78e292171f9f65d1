//! The mathematical model of a match record: what a well-formed record is,
//! which requests it refuses, and what an accepted request makes of it.

use crate::board::{
    empty_grid, has_line, in_bounds, is_full, is_grid, lemma_full_iff_nine_marks, lemma_no_marks,
    lemma_place_cells, lemma_place_marks, marks, place, Grid, Sign,
};
use crate::errors::TicTacToeError;
use crate::game::GameState;
use anchor_lang::prelude::Pubkey;
use vstd::prelude::*;

verus! {

/// What the board says of the match once `mover` has marked a cell: won by
/// `mover` if a row or a column is complete, else tied if no cell is left,
/// else still active.
pub open spec fn outcome(board: Grid, mover: Pubkey) -> GameState {
    if has_line(board) {
        GameState::Won { winner: mover }
    } else if is_full(board) {
        GameState::Tie
    } else {
        GameState::Active
    }
}

/// The mathematical model of a match record.
pub struct GameView {
    /// The two players, in the order in which they move.
    pub players: Seq<Pubkey>,
    /// 0 before the match is started; from then on the number of the move
    /// that is awaited, counted from 1.
    pub turn: nat,
    pub board: Grid,
    pub state: GameState,
}

impl GameView {
    /// The index, 0 or 1, of the player whose move is awaited.  Meaningful
    /// once the match is started.
    pub open spec fn current_player_index(self) -> int
        recommends
            self.turn >= 1,
    {
        (self.turn - 1) % 2
    }

    /// The player whose move is awaited.
    pub open spec fn current_player(self) -> Pubkey
        recommends
            self.turn >= 1,
    {
        self.players[self.current_player_index()]
    }

    /// The mark of the player whose move is awaited.
    pub open spec fn current_sign(self) -> Sign
        recommends
            self.turn >= 1,
    {
        if self.current_player_index() == 0 {
            Sign::X
        } else {
            Sign::O
        }
    }

    /// The player who made the latest move.  Meaningful once a move has been
    /// made.
    pub open spec fn previous_player(self) -> Pubkey
        recommends
            self.turn >= 2,
    {
        self.players[self.turn as int % 2]
    }

    /// What holds of every record that the engine hands out: before the
    /// start the board is empty; from the start on, one cell is marked for
    /// each move made; and the state is the one that the board gave when the
    /// latest move was made.
    pub open spec fn well_formed(self) -> bool {
        &&& self.players.len() == 2
        &&& is_grid(self.board)
        &&& self.turn == 0 ==> marks(self.board) == 0
        &&& self.turn >= 1 ==> marks(self.board) + 1 == self.turn
        &&& self.state == outcome(self.board, self.previous_player())
    }

    /// Why a request to bind the players is refused, if it is.
    pub open spec fn start_refusal(self) -> Option<TicTacToeError> {
        if self.turn != 0 {
            Some(TicTacToeError::GameAlreadyStarted)
        } else {
            None
        }
    }

    /// The record once `players` have been bound to it.
    pub open spec fn after_start(self, players: Seq<Pubkey>) -> GameView {
        GameView { players, turn: 1, board: self.board, state: self.state }
    }

    /// Why a move to `(row, col)` by the player whose turn it is is refused,
    /// if it is.  A finished match refuses first, then a cell off the board,
    /// then a cell that is taken.
    pub open spec fn move_refusal(self, row: int, col: int) -> Option<TicTacToeError> {
        if !(self.state is Active) {
            Some(TicTacToeError::GameAlreadyOver)
        } else if !in_bounds(row, col) {
            Some(TicTacToeError::TileOutOfBounds)
        } else if self.board[row][col] is Some {
            Some(TicTacToeError::TileAlreadySet)
        } else {
            None
        }
    }

    /// Why a move to `(row, col)` submitted by `player` is refused, if it is.
    /// A finished match refuses first, then a player out of turn, then the
    /// cell as in [`Self::move_refusal`].
    pub open spec fn turn_refusal(self, player: Pubkey, row: int, col: int) -> Option<
        TicTacToeError,
    > {
        if !(self.state is Active) {
            Some(TicTacToeError::GameAlreadyOver)
        } else if player != self.current_player() {
            Some(TicTacToeError::NotPlayerTurn)
        } else {
            self.move_refusal(row, col)
        }
    }

    /// The record once the player whose turn it is has marked `(row, col)`:
    /// the cell holds that player's mark, the state is what the new board
    /// gives, and the turn has passed on.
    pub open spec fn after_move(self, row: int, col: int) -> GameView {
        let board = place(self.board, row, col, self.current_sign());
        GameView {
            players: self.players,
            turn: self.turn + 1,
            board,
            state: outcome(board, self.current_player()),
        }
    }
}

/// What an accepted move does to a record: the record stays one that the
/// engine could have produced, the turn passes to the other player, no
/// mark is lost, and the state follows the new board.
pub proof fn lemma_after_move(g: GameView, row: int, col: int)
    requires
        g.well_formed(),
        g.turn >= 1,
        g.move_refusal(row, col) is None,
    ensures
        g.after_move(row, col).well_formed(),
        g.turn <= 9,
        g.current_player_index() == 0 || g.current_player_index() == 1,
        g.after_move(row, col).current_player_index() == 1 - g.current_player_index(),
        g.after_move(row, col).previous_player() == g.current_player(),
        g.after_move(row, col).board[row][col] == Some(g.current_sign()),
        forall|r: int, c: int|
            in_bounds(r, c) && (r != row || c != col) ==> #[trigger] g.after_move(
                row,
                col,
            ).board[r][c] == g.board[r][c],
        !has_line(g.board),
{
    let sign = g.current_sign();
    lemma_place_cells(g.board, row, col, sign);
    lemma_place_marks(g.board, row, col, sign);
    lemma_full_iff_nine_marks(g.board);
}

/// A record that has not been started is active.
pub proof fn lemma_unstarted_is_active(g: GameView)
    requires
        g.well_formed(),
        g.turn == 0,
    ensures
        g.state is Active,
        g.board == empty_grid(),
{
    lemma_no_marks(g.board);
}

} // verus!
