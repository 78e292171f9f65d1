//! The rules of a two-player tic-tac-toe match, verified.
//!
//! A [`Game`] is one match record between two players, each named by a
//! [`Pubkey`](anchor_lang::prelude::Pubkey).  The record is bound to its players
//! once, then takes moves in strict turn order until a player completes a
//! row or a column, or the board is full.  Every function carries a contract
//! over the mathematical model of the record, [`GameView`].

pub mod board;
pub mod errors;
pub mod game;
pub mod instructions;
pub mod keys;
pub mod laws;
pub mod model;

pub use board::Sign;
pub use errors::TicTacToeError;
pub use game::{Game, GameState, Tile};
pub use instructions::{play, setup_game};
pub use model::GameView;
