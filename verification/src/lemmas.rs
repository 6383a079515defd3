//! What holds of every grid, every board and every generation.

use crate::board::Board;
use crate::grid::Grid;
use vstd::prelude::*;

verus! {

/// A generation step keeps the width and the height of the grid, and leaves
/// no live cell off it.
pub proof fn lemma_step_keeps_size(grid: Grid)
    ensures
        grid.step().width == grid.width,
        grid.step().height == grid.height,
        grid.step().wf(),
{
}

/// The next generation is a function of the board alone: whatever two
/// computations of it from one board return, they show the same grid.
pub proof fn lemma_next_is_a_function(board: Board, first: Board, second: Board)
    requires
        first@ == board@.step(),
        second@ == board@.step(),
    ensures
        first@ == second@,
{
}

/// A dead cell comes alive with exactly three live neighbors and with no
/// other tally: with two or fewer it stays dead, and with four or more too.
pub proof fn lemma_dead_cell(grid: Grid, col: int, row: int)
    requires
        grid.in_bounds(col, row),
        !grid.is_alive(col, row),
    ensures
        grid.live_neighbors(col, row) == 3 ==> grid.step().is_alive(col, row),
        grid.live_neighbors(col, row) <= 2 ==> !grid.step().is_alive(col, row),
        grid.step().is_alive(col, row) <==> grid.live_neighbors(col, row) == 3,
{
}

/// A live cell stays alive with two or three live neighbors and dies with
/// any other tally: with none or one, and with four or more.
pub proof fn lemma_live_cell(grid: Grid, col: int, row: int)
    requires
        grid.is_alive(col, row),
    ensures
        grid.live_neighbors(col, row) == 2 || grid.live_neighbors(col, row) == 3
            ==> grid.step().is_alive(col, row),
        grid.live_neighbors(col, row) <= 1 || grid.live_neighbors(col, row) >= 4
            ==> !grid.step().is_alive(col, row),
{
}

/// A tally counts no more cells than there are positions around the cell on
/// the grid, and those are eight at most.
pub proof fn lemma_tally_within_grid(grid: Grid, col: int, row: int)
    ensures
        grid.live_neighbors(col, row) <= grid.neighbor_positions(col, row) <= 8,
{
}

/// A tally reads nothing off the grid: two grids of one size that agree at
/// every position on them give every cell the same tally.
pub proof fn lemma_tally_ignores_outside(a: Grid, b: Grid, col: int, row: int)
    requires
        a.width == b.width,
        a.height == b.height,
        forall|c: int, r: int|
            a.in_bounds(c, r) ==> (#[trigger] a.alive.contains((c, r))) == b.alive.contains((c, r)),
    ensures
        a.live_neighbors(col, row) == b.live_neighbors(col, row),
{
}

/// The cell in the top left corner has at most three positions around it on
/// the grid, never eight, so its tally is three at most.
pub proof fn lemma_corner_tally(grid: Grid)
    ensures
        grid.neighbor_positions(0, 0) <= 3,
        grid.live_neighbors(0, 0) <= 3,
{
}

/// A cell in any corner has at most three positions around it on the grid,
/// and a cell on any edge at most five.
pub proof fn lemma_corner_and_edge(grid: Grid, col: int, row: int)
    requires
        grid.in_bounds(col, row),
    ensures
        (col == 0 || col == grid.width - 1) && (row == 0 || row == grid.height - 1)
            ==> grid.live_neighbors(col, row) <= grid.neighbor_positions(col, row) <= 3,
        col == 0 || col == grid.width - 1 || row == 0 || row == grid.height - 1
            ==> grid.live_neighbors(col, row) <= grid.neighbor_positions(col, row) <= 5,
{
}

/// A grid without a live cell stays without one, however many generations
/// pass.
pub proof fn lemma_dead_stays_dead(width: nat, height: nat, generations: nat)
    ensures
        Grid::dead(width, height).after(generations) == Grid::dead(width, height),
    decreases generations,
{
    if generations > 0 {
        lemma_dead_stays_dead(width, height, (generations - 1) as nat);
        assert(Grid::dead(width, height).step().alive =~= Set::<(int, int)>::empty());
    }
}

/// A live cell that is alone on its grid dies, and no cell is born: the next
/// generation has no live cell.
pub proof fn lemma_lone_cell_dies(grid: Grid, col: int, row: int)
    requires
        grid.alive == set![(col, row)],
    ensures
        grid.step() == Grid::dead(grid.width, grid.height),
{
    assert(grid.step().alive =~= Set::<(int, int)>::empty());
}

} // verus!
