//! The match record and the operations on it.

use crate::board::{
    empty_grid, grid_of, has_line, in_bounds, is_full, lemma_empty_grid,
    lemma_full_iff_nine_marks, lemma_marks_before_nine, lemma_no_marks, line_complete, marks,
    marks_before, place, trio_wins, Sign,
};
use crate::errors::TicTacToeError;
use crate::keys::{same_key, unbound_key};
use crate::model::{lemma_after_move, GameView};
use anchor_lang::prelude::Pubkey;
use vstd::prelude::*;

verus! {

/// Where a match stands.  `Tie` and `Won` are final.
#[derive(Clone, Copy, Debug, PartialEq, Eq)]
pub enum GameState {
    Active,
    Tie,
    Won { winner: Pubkey },
}

/// A proposed move: the cell to mark.
#[derive(Clone, Copy, Debug, PartialEq, Eq)]
pub struct Tile {
    pub row: u8,
    pub col: u8,
}

/// One match between two players.
#[derive(Clone, Copy, Debug, PartialEq, Eq)]
pub struct Game {
    players: [Pubkey; 2],
    turn: u8,
    board: [[Option<Sign>; 3]; 3],
    state: GameState,
}

impl View for Game {
    type V = GameView;

    closed spec fn view(&self) -> GameView {
        GameView {
            players: self.players@,
            turn: self.turn as nat,
            board: grid_of(self.board),
            state: self.state,
        }
    }
}

impl Game {
    /// The record is one that the engine could have produced.
    pub open spec fn wf(&self) -> bool {
        self@.well_formed()
    }

    /// A record that no players have been bound to: nothing is marked and
    /// the match is active.
    pub fn new() -> (game: Game)
        ensures
            game.wf(),
            game@.turn == 0,
            game@.board == empty_grid(),
            game@.state is Active,
    {
        let game = Game {
            players: [unbound_key(), unbound_key()],
            turn: 0,
            board: [[None, None, None], [None, None, None], [None, None, None]],
            state: GameState::Active,
        };
        proof {
            lemma_empty_grid();
            assert(game@.board =~~= empty_grid());
        }
        game
    }

    /// Rebuilds a record from its four parts, as a store hands them back.
    /// The parts are taken exactly when they are those of a record that the
    /// engine could have produced.
    pub fn from_parts(
        players: [Pubkey; 2],
        turn: u8,
        board: [[Option<Sign>; 3]; 3],
        state: GameState,
    ) -> (game: Option<Game>)
        ensures
            game is Some <==> (GameView {
                players: players@,
                turn: turn as nat,
                board: grid_of(board),
                state,
            }).well_formed(),
            game matches Some(g) ==> g.wf() && g@ == (GameView {
                players: players@,
                turn: turn as nat,
                board: grid_of(board),
                state,
            }),
    {
        let game = Game { players, turn, board, state };
        let count = game.mark_count();
        let counted = if turn == 0 {
            count == 0
        } else {
            count + 1 == turn
        };
        if !counted {
            return None;
        }
        let line = game.has_complete_line();
        proof {
            lemma_full_iff_nine_marks(game@.board);
        }
        let settled = match state {
            GameState::Active => !line && count < 9,
            GameState::Tie => !line && count == 9,
            GameState::Won { winner } => line && same_key(&winner, &players[(turn % 2) as usize]),
        };
        if settled {
            Some(game)
        } else {
            None
        }
    }

    /// The two players, in the order in which they move.
    pub fn players(&self) -> (players: [Pubkey; 2])
        ensures
            players@ == self@.players,
    {
        self.players
    }

    /// 0 before the match is started, then the number of the awaited move.
    pub fn turn(&self) -> (turn: u8)
        ensures
            turn == self@.turn,
    {
        self.turn
    }

    /// The board, row by row.
    pub fn board(&self) -> (board: [[Option<Sign>; 3]; 3])
        ensures
            grid_of(board) == self@.board,
    {
        self.board
    }

    /// Where the match stands.
    pub fn state(&self) -> (state: GameState)
        ensures
            state == self@.state,
    {
        self.state
    }

    /// Whether the match still takes moves.
    pub fn is_active(&self) -> (active: bool)
        ensures
            active == (self@.state is Active),
    {
        match self.state {
            GameState::Active => true,
            _ => false,
        }
    }

    /// The index, 0 or 1, of the player whose move is awaited.
    pub fn current_player_index(&self) -> (index: usize)
        requires
            self@.turn >= 1,
        ensures
            index == self@.current_player_index(),
            index == 0 || index == 1,
    {
        ((self.turn - 1) % 2) as usize
    }

    /// The player whose move is awaited.
    pub fn current_player(&self) -> (player: Pubkey)
        requires
            self@.turn >= 1,
        ensures
            player == self@.current_player(),
    {
        self.players[self.current_player_index()]
    }

    /// Binds the match to its two players and opens the first turn, which is
    /// the first player's.  A match is bound once: a second request is
    /// refused and changes nothing.
    pub fn start(&mut self, players: [Pubkey; 2]) -> (res: Result<(), TicTacToeError>)
        requires
            old(self).wf(),
        ensures
            final(self).wf(),
            match old(self)@.start_refusal() {
                Some(e) => res == Err::<(), TicTacToeError>(e) && *final(self) == *old(self),
                None => res is Ok && final(self)@ == old(self)@.after_start(players@),
            },
            res is Ok ==> final(self)@.state is Active && final(self)@.board == empty_grid(),
            final(self)@.board == old(self)@.board,
    {
        if self.turn != 0 {
            return Err(TicTacToeError::GameAlreadyStarted);
        }
        proof {
            lemma_no_marks(self@.board);
        }
        self.players = players;
        self.turn = 1;
        Ok(())
    }

    /// Takes the move of the player whose turn it is: marks the cell with
    /// that player's mark, settles the state from the new board and passes
    /// the turn on.
    ///
    /// A refused move changes nothing.  A finished match refuses every move;
    /// a marked cell keeps its mark; the move that completes a row or a
    /// column wins the match for its player, and the move that fills the
    /// board without doing so ties it.
    pub fn play(&mut self, tile: &Tile) -> (res: Result<(), TicTacToeError>)
        requires
            old(self).wf(),
            old(self)@.turn >= 1,
        ensures
            final(self).wf(),
            match old(self)@.move_refusal(tile.row as int, tile.col as int) {
                Some(e) => res == Err::<(), TicTacToeError>(e) && *final(self) == *old(self),
                None => res is Ok && final(self)@ == old(self)@.after_move(
                    tile.row as int,
                    tile.col as int,
                ),
            },
            res is Err ==> *final(self) == *old(self),
            !(old(self)@.state is Active) ==> res == Err::<(), TicTacToeError>(
                TicTacToeError::GameAlreadyOver,
            ),
            forall|r: int, c: int|
                in_bounds(r, c) && old(self)@.board[r][c] is Some
                    ==> #[trigger] final(self)@.board[r][c] == old(self)@.board[r][c],
            res is Ok ==> final(self)@.current_player_index()
                == 1 - old(self)@.current_player_index(),
            res is Ok && has_line(final(self)@.board) ==> final(self)@.state == (GameState::Won {
                winner: old(self)@.current_player(),
            }),
            res is Ok && !has_line(final(self)@.board) && is_full(final(self)@.board)
                ==> final(self)@.state is Tie,
    {
        if !self.is_active() {
            return Err(TicTacToeError::GameAlreadyOver);
        }
        if tile.row > 2 || tile.col > 2 {
            return Err(TicTacToeError::TileOutOfBounds);
        }
        let row = tile.row as usize;
        let col = tile.col as usize;
        match self.board[row][col] {
            Some(_) => return Err(TicTacToeError::TileAlreadySet),
            None => self.board[row][col] = Sign::from_usize(self.current_player_index()),
        }
        proof {
            let before = old(self)@;
            assert(self@.board =~~= place(
                before.board,
                row as int,
                col as int,
                before.current_sign(),
            ));
            lemma_after_move(before, row as int, col as int);
        }
        self.update_state();
        self.turn += 1;
        Ok(())
    }

    /// Settles the state from the board as the player whose turn it is has
    /// left it: won by that player if a row or a column is complete, tied if
    /// no cell is left, else as it was.
    fn update_state(&mut self)
        requires
            old(self).turn >= 1,
        ensures
            final(self).players == old(self).players,
            final(self).turn == old(self).turn,
            final(self).board == old(self).board,
            final(self).state == (if has_line(old(self)@.board) {
                GameState::Won { winner: old(self)@.current_player() }
            } else if is_full(old(self)@.board) {
                GameState::Tie
            } else {
                old(self).state
            }),
    {
        for i in 0..3usize
            invariant
                *self == *old(self),
                self.turn >= 1,
                forall|j: int| 0 <= j < i ==> !line_complete(self@.board, j),
        {
            if self.is_winning_trio([(i, 0), (i, 1), (i, 2)]) {
                assert(line_complete(self@.board, i as int));
                self.state = GameState::Won { winner: self.current_player() };
                return ;
            }
            if self.is_winning_trio([(0, i), (1, i), (2, i)]) {
                assert(line_complete(self@.board, i as int));
                self.state = GameState::Won { winner: self.current_player() };
                return ;
            }
        }

        // No line: the match goes on while a cell is left.
        for row in 0..3usize
            invariant
                *self == *old(self),
                !has_line(self@.board),
                forall|r: int, c: int| 0 <= r < row && 0 <= c < 3 ==> (#[trigger] self@.board[r][c]) is Some,
        {
            for col in 0..3usize
                invariant
                    *self == *old(self),
                    !has_line(self@.board),
                    row < 3,
                    forall|r: int, c: int|
                        0 <= r < row && 0 <= c < 3 ==> (#[trigger] self@.board[r][c]) is Some,
                    forall|c: int| 0 <= c < col ==> (#[trigger] self@.board[row as int][c]) is Some,
            {
                if self.board[row][col].is_none() {
                    assert(in_bounds(row as int, col as int));
                    return ;
                }
            }
        }

        self.state = GameState::Tie;
    }

    /// The number of marked cells.
    fn mark_count(&self) -> (count: u8)
        ensures
            count == marks(self@.board),
            count <= 9,
    {
        let mut count: u8 = 0;
        for row in 0..3usize
            invariant
                count == marks_before(self@.board, 3 * row as nat),
                count <= 3 * row,
        {
            for col in 0..3usize
                invariant
                    row < 3,
                    count == marks_before(self@.board, (3 * row + col) as nat),
                    count <= 3 * row + col,
            {
                proof {
                    reveal_with_fuel(marks_before, 2);
                }
                if self.board[row][col].is_some() {
                    count += 1;
                }
            }
        }
        proof {
            lemma_marks_before_nine(self@.board);
        }
        count
    }

    /// Whether some row or some column holds three identical marks.
    fn has_complete_line(&self) -> (found: bool)
        ensures
            found == has_line(self@.board),
    {
        for i in 0..3usize
            invariant
                forall|j: int| 0 <= j < i ==> !line_complete(self@.board, j),
        {
            if self.is_winning_trio([(i, 0), (i, 1), (i, 2)]) || self.is_winning_trio(
                [(0, i), (1, i), (2, i)],
            ) {
                assert(line_complete(self@.board, i as int));
                return true;
            }
        }
        false
    }

    /// Whether the three cells are marked, and all with the same mark.
    fn is_winning_trio(&self, trio: [(usize, usize); 3]) -> (wins: bool)
        requires
            forall|k: int| 0 <= k < 3 ==> (#[trigger] trio[k]).0 < 3 && trio[k].1 < 3,
        ensures
            wins == trio_wins(
                self@.board,
                (trio[0].0 as int, trio[0].1 as int),
                (trio[1].0 as int, trio[1].1 as int),
                (trio[2].0 as int, trio[2].1 as int),
            ),
    {
        let first = trio[0];
        let second = trio[1];
        let third = trio[2];
        return self.board[first.0][first.1].is_some() && self.board[first.0][first.1]
            == self.board[second.0][second.1] && self.board[first.0][first.1]
            == self.board[third.0][third.1];
    }
}

} // verus!
