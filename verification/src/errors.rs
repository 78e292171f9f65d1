//! The reasons for which the engine refuses a request.

use vstd::prelude::*;

verus! {

/// Why a request was refused.  A refused request leaves the match record as
/// it was.
#[derive(Clone, Copy, Debug, PartialEq, Eq, Structural)]
pub enum TicTacToeError {
    /// The target cell lies outside the 3×3 board.
    TileOutOfBounds,
    /// The target cell already holds a mark.
    TileAlreadySet,
    /// The match has been won or tied: it takes no further moves.
    GameAlreadyOver,
    /// The caller is not the player whose turn it is.
    NotPlayerTurn,
    /// The match has already been bound to its players.
    GameAlreadyStarted,
}

} // verus!
