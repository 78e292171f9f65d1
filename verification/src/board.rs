//! Marks, and the 3×3 board as a mathematical grid.

use vstd::prelude::*;

verus! {

/// The mark a player leaves on a cell.
#[derive(Clone, Copy, Debug, PartialEq, Eq, Structural)]
pub enum Sign {
    X,
    O,
}

impl Sign {
    /// The mark of the player at index `n`: `X` for the first player, `O` for
    /// the second, none for any other index.
    pub open spec fn of_index(n: int) -> Option<Sign> {
        if n == 0 {
            Some(Sign::X)
        } else if n == 1 {
            Some(Sign::O)
        } else {
            None
        }
    }

    /// The mark of the player at index `n`, if there is such a player.
    pub fn from_usize(n: usize) -> (sign: Option<Sign>)
        ensures
            sign == Sign::of_index(n as int),
    {
        if n == 0 {
            Some(Sign::X)
        } else if n == 1 {
            Some(Sign::O)
        } else {
            None
        }
    }
}

/// A board in specifications: rows of cells, a cell being empty (`None`) or
/// marked.
pub type Grid = Seq<Seq<Option<Sign>>>;

/// A cell position on the board.
pub open spec fn in_bounds(row: int, col: int) -> bool {
    0 <= row < 3 && 0 <= col < 3
}

/// The grid has three rows of three cells.
pub open spec fn is_grid(b: Grid) -> bool {
    &&& b.len() == 3
    &&& forall|r: int| 0 <= r < 3 ==> (#[trigger] b[r]).len() == 3
}

/// The board on which nothing has been played.
pub open spec fn empty_grid() -> Grid {
    Seq::new(3, |r: int| Seq::new(3, |c: int| None::<Sign>))
}

/// The grid of an executable board.
pub open spec fn grid_of(board: [[Option<Sign>; 3]; 3]) -> Grid {
    Seq::new(3, |r: int| board[r]@)
}

/// The grid `b` with `sign` written into the cell at `(row, col)`.
pub open spec fn place(b: Grid, row: int, col: int, sign: Sign) -> Grid {
    b.update(row, b[row].update(col, Some(sign)))
}

/// The three cells are marked, and all with the same mark.
pub open spec fn trio_wins(b: Grid, first: (int, int), second: (int, int), third: (int, int)) -> bool {
    &&& b[first.0][first.1] is Some
    &&& b[first.0][first.1] == b[second.0][second.1]
    &&& b[first.0][first.1] == b[third.0][third.1]
}

/// Row `i` holds three identical marks.
pub open spec fn row_complete(b: Grid, i: int) -> bool {
    trio_wins(b, (i, 0), (i, 1), (i, 2))
}

/// Column `i` holds three identical marks.
pub open spec fn col_complete(b: Grid, i: int) -> bool {
    trio_wins(b, (0, i), (1, i), (2, i))
}

/// Row `i` or column `i` holds three identical marks.
pub open spec fn line_complete(b: Grid, i: int) -> bool {
    row_complete(b, i) || col_complete(b, i)
}

/// Some row or some column holds three identical marks.  Diagonals do not
/// count.
pub open spec fn has_line(b: Grid) -> bool {
    exists|i: int| 0 <= i < 3 && line_complete(b, i)
}

/// Every cell is marked.
pub open spec fn is_full(b: Grid) -> bool {
    forall|r: int, c: int| in_bounds(r, c) ==> (#[trigger] b[r][c]) is Some
}

/// 1 if the cell is marked, 0 if it is empty.
pub open spec fn marked(b: Grid, row: int, col: int) -> nat {
    if b[row][col] is Some {
        1
    } else {
        0
    }
}

/// The number of marked cells in row `row`.
pub open spec fn row_marks(b: Grid, row: int) -> nat {
    marked(b, row, 0) + marked(b, row, 1) + marked(b, row, 2)
}

/// The number of marked cells on the board.
pub open spec fn marks(b: Grid) -> nat {
    row_marks(b, 0) + row_marks(b, 1) + row_marks(b, 2)
}

/// The empty board is a grid with no mark, no line, and room left.
pub proof fn lemma_empty_grid()
    ensures
        is_grid(empty_grid()),
        marks(empty_grid()) == 0,
        !has_line(empty_grid()),
        !is_full(empty_grid()),
        forall|r: int, c: int| in_bounds(r, c) ==> (#[trigger] empty_grid()[r][c]) is None,
{
    let e = empty_grid();
    assert(e[0][0] is None);
}

/// Writing a mark changes the written cell and no other.
pub proof fn lemma_place_cells(b: Grid, row: int, col: int, sign: Sign)
    requires
        is_grid(b),
        in_bounds(row, col),
    ensures
        is_grid(place(b, row, col, sign)),
        place(b, row, col, sign)[row][col] == Some(sign),
        forall|r: int, c: int|
            in_bounds(r, c) && (r != row || c != col) ==> #[trigger] place(b, row, col, sign)[r][c]
                == b[r][c],
{
}

/// Writing a mark into an empty cell adds one to the number of marks.
pub proof fn lemma_place_marks(b: Grid, row: int, col: int, sign: Sign)
    requires
        is_grid(b),
        in_bounds(row, col),
        b[row][col] is None,
    ensures
        marks(place(b, row, col, sign)) == marks(b) + 1,
{
    lemma_place_cells(b, row, col, sign);
    let p = place(b, row, col, sign);
    assert forall|r: int, c: int| in_bounds(r, c) implies marked(p, r, c) == marked(b, r, c) + (if r
        == row && c == col {
        1nat
    } else {
        0nat
    }) by {
        if r == row && c == col {
        } else {
            assert(p[r][c] == b[r][c]);
        }
    }
    assert(in_bounds(0, 0) && in_bounds(0, 1) && in_bounds(0, 2));
    assert(in_bounds(1, 0) && in_bounds(1, 1) && in_bounds(1, 2));
    assert(in_bounds(2, 0) && in_bounds(2, 1) && in_bounds(2, 2));
}

/// A board is full exactly when it holds nine marks, and never holds more.
pub proof fn lemma_full_iff_nine_marks(b: Grid)
    requires
        is_grid(b),
    ensures
        marks(b) <= 9,
        is_full(b) <==> marks(b) == 9,
{
    if is_full(b) {
        assert(b[0][0] is Some && b[0][1] is Some && b[0][2] is Some) by {
            assert(in_bounds(0, 0) && in_bounds(0, 1) && in_bounds(0, 2));
        }
        assert(b[1][0] is Some && b[1][1] is Some && b[1][2] is Some) by {
            assert(in_bounds(1, 0) && in_bounds(1, 1) && in_bounds(1, 2));
        }
        assert(b[2][0] is Some && b[2][1] is Some && b[2][2] is Some) by {
            assert(in_bounds(2, 0) && in_bounds(2, 1) && in_bounds(2, 2));
        }
    }
    if marks(b) == 9 {
        assert forall|r: int, c: int| in_bounds(r, c) implies (#[trigger] b[r][c]) is Some by {
            assert(marked(b, r, c) == 1);
        }
    }
}

/// The number of marked cells among the first `n` cells of the board, read
/// row by row.
pub open spec fn marks_before(b: Grid, n: nat) -> nat
    decreases n,
{
    if n == 0 {
        0
    } else {
        marks_before(b, (n - 1) as nat) + marked(b, (n - 1) / 3, (n - 1) % 3)
    }
}

/// Read row by row, the nine cells give the number of marks on the board.
pub proof fn lemma_marks_before_nine(b: Grid)
    ensures
        marks_before(b, 9) == marks(b),
{
    reveal_with_fuel(marks_before, 10);
}

/// A board without marks has no complete line and is not full.
pub proof fn lemma_no_marks(b: Grid)
    requires
        is_grid(b),
        marks(b) == 0,
    ensures
        b == empty_grid(),
        !has_line(b),
        !is_full(b),
{
    lemma_empty_grid();
    assert forall|r: int, c: int| in_bounds(r, c) implies (#[trigger] b[r][c]) is None by {
        assert(marked(b, r, c) == 0);
    }
    assert(b =~~= empty_grid());
}

} // verus!
