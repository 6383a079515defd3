//! A single position of a board, and the rule by which it lives or dies.

use vstd::prelude::*;

verus! {

/// What becomes of a cell that is `alive` and has `tally` live neighbors.
///
/// A live cell survives with two or three live neighbors, a dead cell is
/// born with exactly three, and every other cell is dead in the next
/// generation.
pub open spec fn next_state(alive: bool, tally: nat) -> bool {
    if alive {
        tally == 2 || tally == 3
    } else {
        tally == 3
    }
}

/// The most bytes of memory that one cell takes: two machine words for its
/// coordinates and one more for its life state.
pub const CELL_BYTES: usize = 24;

/// The life state of one grid position, together with the position itself.
///
/// A cell carries its own coordinates so that whoever walks over a board's
/// cells can place each of them without keeping count.
#[derive(Clone, Copy, Debug, PartialEq, Eq, Structural)]
pub struct Cell {
    /// Whether the cell is alive.
    pub alive: bool,
    /// The column the cell sits in, counted from the left edge.
    pub col: usize,
    /// The row the cell sits in, counted from the top edge.
    pub row: usize,
}

impl Cell {
    /// A dead cell at the given column and row.
    pub fn new(col: usize, row: usize) -> (cell: Cell)
        ensures
            cell == (Cell { alive: false, col, row }),
    {
        Cell { alive: false, col, row }
    }

    /// The cell one generation later, given how many of its neighbors are
    /// alive now. It stays where it is; only its life state follows the rule.
    pub fn evolve(self, tally: usize) -> (next: Cell)
        ensures
            next == (Cell {
                alive: next_state(self.alive, tally as nat),
                col: self.col,
                row: self.row,
            }),
    {
        let alive = if self.alive {
            tally == 2 || tally == 3
        } else {
            tally == 3
        };
        Cell { alive, col: self.col, row: self.row }
    }
}

impl Default for Cell {
    /// A dead cell in the top left corner.
    fn default() -> (cell: Cell)
        ensures
            cell == (Cell { alive: false, col: 0, row: 0 }),
    {
        Cell { alive: false, col: 0, row: 0 }
    }
}

} // verus!
