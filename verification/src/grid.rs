//! The mathematical model of a board and of one generation step.

use crate::cell::{next_state, Cell};
use crate::offsets::NEIGHBOR_OFFSETS;
use vstd::prelude::*;

verus! {

/// A bounded grid: its size and the set of positions that hold a live cell.
///
/// A position is a pair `(col, row)`.
#[verifier::ext_equal]
pub struct Grid {
    /// The number of columns.
    pub width: nat,
    /// The number of rows.
    pub height: nat,
    /// The positions of the live cells.
    pub alive: Set<(int, int)>,
}

impl Grid {
    /// The grid of the given size without a live cell.
    pub open spec fn dead(width: nat, height: nat) -> Grid {
        Grid { width, height, alive: Set::empty() }
    }

    /// Whether `(col, row)` lies on the grid.
    pub open spec fn in_bounds(self, col: int, row: int) -> bool {
        0 <= col < self.width && 0 <= row < self.height
    }

    /// Every live position lies on the grid.
    pub open spec fn wf(self) -> bool {
        forall|col: int, row: int| #[trigger]
            self.alive.contains((col, row)) ==> self.in_bounds(col, row)
    }

    /// Whether a live cell sits at `(col, row)`. Positions off the grid hold
    /// no cell and are never alive.
    pub open spec fn is_alive(self, col: int, row: int) -> bool {
        self.in_bounds(col, row) && self.alive.contains((col, row))
    }

    /// The cell that sits at `(col, row)`.
    pub open spec fn cell(self, col: int, row: int) -> Cell {
        Cell { alive: self.is_alive(col, row), col: col as usize, row: row as usize }
    }

    /// The place of `(col, row)` in reading order: rows from the top, and each
    /// row from the left.
    pub open spec fn index(self, col: int, row: int) -> int {
        row * self.width + col
    }

    /// The grid with the cell at `(col, row)` made alive or dead. A position
    /// off the grid holds no cell, and the grid stays as it is.
    pub open spec fn with_cell(self, col: int, row: int, alive: bool) -> Grid {
        if !self.in_bounds(col, row) {
            self
        } else if alive {
            Grid { width: self.width, height: self.height, alive: self.alive.insert((col, row)) }
        } else {
            Grid { width: self.width, height: self.height, alive: self.alive.remove((col, row)) }
        }
    }

    /// What the position `(col, row)` adds to a tally of live cells.
    pub open spec fn live_at(self, col: int, row: int) -> nat {
        if self.is_alive(col, row) {
            1
        } else {
            0
        }
    }

    /// The number of live cells among the eight positions around
    /// `(col, row)`.
    pub open spec fn live_neighbors(self, col: int, row: int) -> nat {
        self.live_at(col - 1, row - 1) + self.live_at(col, row - 1) + self.live_at(col + 1, row - 1)
            + self.live_at(col - 1, row) + self.live_at(col + 1, row)
            + self.live_at(col - 1, row + 1) + self.live_at(col, row + 1) + self.live_at(
            col + 1,
            row + 1,
        )
    }

    /// The number of live cells that the first `count` steps of
    /// [`NEIGHBOR_OFFSETS`] reach from `(col, row)`.
    pub open spec fn live_among(self, col: int, row: int, count: nat) -> nat
        decreases count,
    {
        if count == 0 {
            0
        } else {
            let step = NEIGHBOR_OFFSETS@[count - 1];
            self.live_among(col, row, (count - 1) as nat) + self.live_at(col + step.0, row + step.1)
        }
    }

    /// Walking the whole table of steps counts the live neighbors.
    pub proof fn lemma_live_among_all(self, col: int, row: int)
        ensures
            self.live_among(col, row, 8) == self.live_neighbors(col, row),
    {
        reveal_with_fuel(Grid::live_among, 9);
    }

    /// The grid one generation later: same size, and each position alive or
    /// dead as [`next_state`] says of its state and tally in `self`.
    pub open spec fn step(self) -> Grid {
        Grid {
            width: self.width,
            height: self.height,
            alive: Set::new(
                |p: (int, int)|
                    self.in_bounds(p.0, p.1) && next_state(
                        self.is_alive(p.0, p.1),
                        self.live_neighbors(p.0, p.1),
                    ),
            ),
        }
    }

    /// The grid after the given number of generations.
    pub open spec fn after(self, generations: nat) -> Grid
        decreases generations,
    {
        if generations == 0 {
            self
        } else {
            self.after((generations - 1) as nat).step()
        }
    }

    /// What the position `(col, row)` adds to a count of positions on the
    /// grid.
    pub open spec fn on_grid_at(self, col: int, row: int) -> nat {
        if self.in_bounds(col, row) {
            1
        } else {
            0
        }
    }

    /// How many of the eight positions around `(col, row)` lie on the grid.
    pub open spec fn neighbor_positions(self, col: int, row: int) -> nat {
        self.on_grid_at(col - 1, row - 1) + self.on_grid_at(col, row - 1) + self.on_grid_at(
            col + 1,
            row - 1,
        ) + self.on_grid_at(col - 1, row) + self.on_grid_at(col + 1, row) + self.on_grid_at(
            col - 1,
            row + 1,
        ) + self.on_grid_at(col, row + 1) + self.on_grid_at(col + 1, row + 1)
    }

    /// The character that stands for the cell at `(col, row)` in the text of
    /// the grid: `X` for a live cell, `_` for a dead one.
    pub open spec fn mark(self, col: int, row: int) -> char {
        if self.is_alive(col, row) {
            'X'
        } else {
            '_'
        }
    }

    /// The text of the first `count` cells of a row: for each cell a blank
    /// and its mark.
    pub open spec fn row_text(self, row: int, count: nat) -> Seq<char>
        decreases count,
    {
        if count == 0 {
            Seq::empty()
        } else {
            self.row_text(row, (count - 1) as nat).push(' ').push(self.mark(count - 1, row))
        }
    }

    /// The text of the first `count` rows, each row closed by a line feed.
    pub open spec fn rows_text(self, count: nat) -> Seq<char>
        decreases count,
    {
        if count == 0 {
            Seq::empty()
        } else {
            self.rows_text((count - 1) as nat) + self.row_text(count - 1, self.width).push('\n')
        }
    }

    /// The grid as text, one line for each row.
    pub open spec fn text(self) -> Seq<char> {
        self.rows_text(self.height)
    }
}

} // verus!
