//! The board: a grid of cells and the step from one generation to the next.

use crate::cell::{Cell, CELL_BYTES};
use crate::entropy::random_bool;
use crate::grid::Grid;
use crate::offsets::NEIGHBOR_OFFSETS;
use crate::store::{
    array_clone, array_column_count, array_filled_with, array_get, array_holds, array_num_columns,
    array_row_count, array_rows, array_set,
};
use crate::text::push_char;
use array2d::Array2D;
use vstd::prelude::*;

verus! {

/// A grid of cells of fixed width and height.
///
/// Every position `(col, row)` with `col` below the width and `row` below
/// the height holds exactly one cell, and that cell carries the coordinates
/// of the position it sits at.
#[derive(Debug)]
pub struct Board {
    array: Array2D<Cell>,
}

/// The rows of cells that show `grid`: one cell for each position, alive
/// where the grid is and marked with its own coordinates.
spec fn rows_of(grid: Grid) -> Seq<Seq<Cell>> {
    Seq::new(grid.height, |row: int| Seq::new(grid.width, |col: int| grid.cell(col, row)))
}

/// The rows of an array that is being rewritten in reading order: the
/// positions before `(row, col)` already hold what `target` holds there, and
/// the others still hold what `before` holds.
spec fn rewritten(
    rows: Seq<Seq<Cell>>,
    before: Seq<Seq<Cell>>,
    target: Seq<Seq<Cell>>,
    row: int,
    col: int,
) -> bool {
    &&& rows.len() == before.len() == target.len()
    &&& forall|r: int|
        0 <= r < rows.len() ==> (#[trigger] rows[r]).len() == before[r].len() == target[r].len()
    &&& forall|r: int, c: int|
        0 <= r < rows.len() && 0 <= c < rows[r].len() ==> #[trigger] rows[r][c] == (if r < row || (r
            == row && c < col) {
            target[r][c]
        } else {
            before[r][c]
        })
}

/// Rewriting the position `(row, col)` moves the rewritten part one
/// position on.
proof fn lemma_rewrite_one(
    rows: Seq<Seq<Cell>>,
    before: Seq<Seq<Cell>>,
    target: Seq<Seq<Cell>>,
    row: int,
    col: int,
)
    requires
        rewritten(rows, before, target, row, col),
        0 <= row < rows.len(),
        0 <= col < rows[row].len(),
    ensures
        rewritten(
            rows.update(row, rows[row].update(col, target[row][col])),
            before,
            target,
            row,
            col + 1,
        ),
{
    let after = rows.update(row, rows[row].update(col, target[row][col]));
    assert forall|r: int| 0 <= r < after.len() implies (#[trigger] after[r]).len()
        == before[r].len() == target[r].len() by {
        assert(rows[r].len() == before[r].len());
    }
    assert forall|r: int, c: int| 0 <= r < after.len() && 0 <= c < after[r].len() implies
        #[trigger] after[r][c] == (if r < row || (r == row && c < col + 1) {
            target[r][c]
        } else {
            before[r][c]
        }) by {
        if r != row || c != col {
            assert(after[r][c] == rows[r][c]);
        }
    }
}

/// Once every position is rewritten the rows are the target.
proof fn lemma_rewrite_all(rows: Seq<Seq<Cell>>, before: Seq<Seq<Cell>>, target: Seq<Seq<Cell>>)
    requires
        rewritten(rows, before, target, rows.len() as int, 0),
    ensures
        rows == target,
{
    assert forall|r: int| 0 <= r < rows.len() implies #[trigger] rows[r] == target[r] by {
        assert(rows[r] =~= target[r]);
    }
}

/// The position `delta` steps away from `position`, where that is a
/// position below `limit`.
fn shifted(position: usize, delta: i32, limit: usize) -> (moved: Option<usize>)
    requires
        -1 <= delta <= 1,
    ensures
        moved == (if 0 <= position + delta < limit {
            Some((position + delta) as usize)
        } else {
            None
        }),
{
    if delta < 0 {
        if 0 < position && position <= limit {
            Some(position - 1)
        } else {
            None
        }
    } else if delta > 0 {
        if position < limit && position + 1 < limit {
            Some(position + 1)
        } else {
            None
        }
    } else if position < limit {
        Some(position)
    } else {
        None
    }
}

/// The grid that an array of cells shows: its size, and the positions at
/// which it holds a live cell.
spec fn grid_of(array: Array2D<Cell>) -> Grid {
    Grid {
        width: array_num_columns(array),
        height: array_rows(array).len(),
        alive: Set::new(
            |p: (int, int)| array_holds(array, p.1, p.0) && array_rows(array)[p.1][p.0].alive,
        ),
    }
}

/// Every row is as long as the array is wide, and every cell carries the
/// coordinates of the position it sits at.
spec fn shaped(array: Array2D<Cell>) -> bool {
    &&& forall|row: int|
        0 <= row < array_rows(array).len() ==> (#[trigger] array_rows(array)[row]).len()
            == array_num_columns(array)
    &&& forall|row: int, col: int|
        array_holds(array, row, col) ==> {
            let cell = #[trigger] array_rows(array)[row][col];
            cell.col == col && cell.row == row
        }
}

/// The rows of a well-shaped array are the rows of the grid it shows.
proof fn lemma_shaped_rows(array: Array2D<Cell>)
    requires
        shaped(array),
    ensures
        array_rows(array) == rows_of(grid_of(array)),
{
    let rows = array_rows(array);
    let shown = rows_of(grid_of(array));
    assert forall|r: int| 0 <= r < rows.len() implies #[trigger] rows[r] == shown[r] by {
        assert(rows[r] =~= shown[r]);
    }
}

/// An array of the width of `grid` whose rows are those of `grid` is well
/// shaped and shows `grid`.
proof fn lemma_grid_of_rows(array: Array2D<Cell>, grid: Grid)
    requires
        grid.wf(),
        grid.width <= usize::MAX,
        grid.height <= usize::MAX,
        array_num_columns(array) == grid.width,
        array_rows(array) == rows_of(grid),
    ensures
        grid_of(array) == grid,
        shaped(array),
{
    assert(grid_of(array).alive =~= grid.alive);
}

impl View for Board {
    type V = Grid;

    /// The size of the board and the positions of its live cells.
    closed spec fn view(&self) -> Grid {
        grid_of(self.array)
    }
}

impl Clone for Board {
    /// A board of the same size with the same cells.
    fn clone(&self) -> (copy: Board)
        ensures
            copy@ == self@,
    {
        proof {
            use_type_invariant(self);
        }
        Board { array: array_clone(&self.array) }
    }
}

impl Board {
    /// What holds of every board: its rows are all of its width and each
    /// cell carries its own position.
    #[verifier::type_invariant]
    spec fn well_formed(&self) -> bool {
        shaped(self.array)
    }

    /// The live positions of a board all lie on it.
    pub proof fn lemma_view_wf(self)
        ensures
            self@.wf(),
    {
    }

    /// Whether a board of `width` columns and `height` rows can be made: no
    /// allocation holds more than `isize::MAX` bytes, so its cells may not
    /// take more.
    pub open spec fn fits(width: nat, height: nat) -> bool {
        width * height * CELL_BYTES <= isize::MAX
    }

    /// Tells whether a board of `width` columns and `height` rows can be
    /// made, for callers that cannot know it beforehand.
    pub fn can_fit(width: usize, height: usize) -> (fit: bool)
        ensures
            fit == Board::fits(width as nat, height as nat),
    {
        match width.checked_mul(height) {
            Some(cells) => match cells.checked_mul(CELL_BYTES) {
                Some(bytes) => bytes <= isize::MAX as usize,
                None => false,
            },
            None => false,
        }
    }

    /// A board of `width` columns and `height` rows on which every cell is
    /// dead.
    pub fn dead(width: usize, height: usize) -> (board: Board)
        requires
            Board::fits(width as nat, height as nat),
        ensures
            board@ == Grid::dead(width as nat, height as nat),
    {
        assert(height * width == width * height) by (nonlinear_arith);
        let mut array = array_filled_with(Cell::new(0, 0), height, width);
        let ghost grid = Grid::dead(width as nat, height as nat);
        let ghost before = array_rows(array);
        for row in 0..height
            invariant
                grid == Grid::dead(width as nat, height as nat),
                array_num_columns(array) == width,
                rewritten(array_rows(array), before, rows_of(grid), row as int, 0),
        {
            for col in 0..width
                invariant
                    row < height,
                    grid == Grid::dead(width as nat, height as nat),
                    array_num_columns(array) == width,
                    rewritten(array_rows(array), before, rows_of(grid), row as int, col as int),
            {
                proof {
                    lemma_rewrite_one(
                        array_rows(array),
                        before,
                        rows_of(grid),
                        row as int,
                        col as int,
                    );
                }
                array_set(&mut array, row, col, Cell::new(col, row));
            }
        }
        proof {
            lemma_rewrite_all(array_rows(array), before, rows_of(grid));
            lemma_grid_of_rows(array, grid);
        }
        Board { array }
    }

    /// A board of `width` columns and `height` rows on which each cell is
    /// alive or dead as a fair coin falls, one toss for each cell.
    pub fn new(width: usize, height: usize) -> (board: Board)
        requires
            Board::fits(width as nat, height as nat),
        ensures
            board@.width == width,
            board@.height == height,
    {
        let mut rng = rand::thread_rng();
        let mut board = Board::dead(width, height);
        for row in 0..height
            invariant
                board@.width == width,
                board@.height == height,
        {
            for col in 0..width
                invariant
                    board@.width == width,
                    board@.height == height,
            {
                let alive = random_bool(&mut rng);
                board.set_alive(col, row, alive);
            }
        }
        board
    }

    /// The number of columns.
    pub fn width(&self) -> (width: usize)
        ensures
            width == self@.width,
    {
        array_column_count(&self.array)
    }

    /// The number of rows.
    pub fn height(&self) -> (height: usize)
        ensures
            height == self@.height,
    {
        array_row_count(&self.array)
    }

    /// The cell at `(col, row)`, or nothing where the position is off the
    /// board.
    pub fn get(&self, col: usize, row: usize) -> (found: Option<Cell>)
        ensures
            found == (if self@.in_bounds(col as int, row as int) {
                Some(self@.cell(col as int, row as int))
            } else {
                None
            }),
    {
        proof {
            use_type_invariant(self);
        }
        match array_get(&self.array, row, col) {
            Some(cell) => Some(*cell),
            None => None,
        }
    }

    /// Whether a live cell sits at `(col, row)`. A position off the board
    /// holds no cell and counts as dead.
    pub fn is_alive(&self, col: usize, row: usize) -> (alive: bool)
        ensures
            alive == self@.is_alive(col as int, row as int),
    {
        match array_get(&self.array, row, col) {
            Some(cell) => cell.alive,
            None => false,
        }
    }

    /// Makes the cell at `(col, row)` alive or dead and says whether the
    /// position is on the board. Off the board there is no cell to change.
    pub fn set_alive(&mut self, col: usize, row: usize, alive: bool) -> (on_board: bool)
        ensures
            on_board == old(self)@.in_bounds(col as int, row as int),
            final(self)@ == old(self)@.with_cell(col as int, row as int, alive),
    {
        proof {
            use_type_invariant(&*self);
        }
        let on_board = array_set(&mut self.array, row, col, Cell { alive, col, row });
        assert(self@.alive =~= old(self)@.with_cell(col as int, row as int, alive).alive);
        on_board
    }

    /// The number of live cells among the eight positions around
    /// `(col, row)`. Positions off the board add nothing.
    pub fn live_neighbors(&self, col: usize, row: usize) -> (tally: usize)
        ensures
            tally == self@.live_neighbors(col as int, row as int),
    {
        let width = self.width();
        let height = self.height();
        let mut tally: usize = 0;
        for i in 0..8
            invariant
                width == self@.width,
                height == self@.height,
                tally == self@.live_among(col as int, row as int, i as nat),
                tally <= i,
        {
            let (dcol, drow) = NEIGHBOR_OFFSETS[i];
            let alive = match (shifted(col, dcol, width), shifted(row, drow, height)) {
                (Some(c), Some(r)) => self.is_alive(c, r),
                _ => false,
            };
            assert(alive == self@.is_alive(col + dcol, row + drow));
            assert(self@.live_among(col as int, row as int, (i + 1) as nat) == self@.live_among(
                col as int,
                row as int,
                i as nat,
            ) + self@.live_at(col + dcol, row + drow));
            if alive {
                tally += 1;
            }
        }
        proof {
            self@.lemma_live_among_all(col as int, row as int);
        }
        tally
    }

    /// The board one generation later.
    ///
    /// Each cell's tally is taken from `self`, which does not change, so no
    /// cell of the new board depends on another cell of the new board.
    pub fn next(&self) -> (next: Board)
        ensures
            next@ == self@.step(),
            next@.width == self@.width,
            next@.height == self@.height,
    {
        proof {
            use_type_invariant(self);
        }
        let height = self.height();
        let width = self.width();
        let mut array = array_clone(&self.array);
        let ghost before = array_rows(self.array);
        proof {
            lemma_shaped_rows(self.array);
        }
        for row in 0..height
            invariant
                before == array_rows(self.array),
                before == rows_of(self@),
                height == self@.height,
                width == self@.width,
                array_num_columns(array) == width,
                rewritten(array_rows(array), before, rows_of(self@.step()), row as int, 0),
        {
            for col in 0..width
                invariant
                    row < height,
                    before == array_rows(self.array),
                    before == rows_of(self@),
                    height == self@.height,
                    width == self@.width,
                    array_num_columns(array) == width,
                    rewritten(
                        array_rows(array),
                        before,
                        rows_of(self@.step()),
                        row as int,
                        col as int,
                    ),
            {
                let tally = self.live_neighbors(col, row);
                let cell = *array_get(&self.array, row, col).unwrap();
                proof {
                    lemma_rewrite_one(
                        array_rows(array),
                        before,
                        rows_of(self@.step()),
                        row as int,
                        col as int,
                    );
                }
                array_set(&mut array, row, col, cell.evolve(tally));
            }
        }
        proof {
            lemma_rewrite_all(array_rows(array), before, rows_of(self@.step()));
            lemma_grid_of_rows(array, self@.step());
        }
        Board { array }
    }

    /// Every cell of the board, row after row from the top and each row from
    /// the left.
    pub fn cells(&self) -> (cells: Vec<Cell>)
        ensures
            cells@.len() == self@.width * self@.height,
            forall|col: int, row: int|
                self@.in_bounds(col, row) ==> 0 <= #[trigger] self@.index(col, row) < cells@.len()
                    && cells@[self@.index(col, row)] == self@.cell(col, row),
    {
        let height = self.height();
        let width = self.width();
        let mut cells: Vec<Cell> = Vec::new();
        assert(0 * width == 0) by (nonlinear_arith);
        for row in 0..height
            invariant
                height == self@.height,
                width == self@.width,
                cells@.len() == row * width,
                forall|c: int, r: int|
                    0 <= c < width && 0 <= r < row ==> 0 <= #[trigger] self@.index(c, r)
                        < cells@.len() && cells@[self@.index(c, r)] == self@.cell(c, r),
        {
            for col in 0..width
                invariant
                    row < height,
                    height == self@.height,
                    width == self@.width,
                    cells@.len() == row * width + col,
                    forall|c: int, r: int|
                        0 <= c < width && (0 <= r < row || (r == row && c < col)) ==> 0
                            <= #[trigger] self@.index(c, r) < cells@.len() && cells@[self@.index(
                            c,
                            r,
                        )] == self@.cell(c, r),
            {
                let cell = self.get(col, row).unwrap();
                cells.push(cell);
            }
            assert((row + 1) * width == row * width + width) by (nonlinear_arith);
        }
        assert(height * width == width * height) by (nonlinear_arith);
        cells
    }

    /// The board as text: one line for each row, and in it a blank and a
    /// mark for each cell, `X` where the cell is alive and `_` where it is
    /// dead.
    pub fn to_text(&self) -> (text: String)
        ensures
            text@ == self@.text(),
    {
        let height = self.height();
        let width = self.width();
        let mut text = String::new();
        for row in 0..height
            invariant
                height == self@.height,
                width == self@.width,
                text@ == self@.rows_text(row as nat),
        {
            let ghost above = text@;
            for col in 0..width
                invariant
                    row < height,
                    height == self@.height,
                    width == self@.width,
                    above == self@.rows_text(row as nat),
                    text@ == above + self@.row_text(row as int, col as nat),
            {
                let mark = if self.is_alive(col, row) {
                    'X'
                } else {
                    '_'
                };
                push_char(&mut text, ' ');
                push_char(&mut text, mark);
                assert(text@ =~= above + self@.row_text(row as int, (col + 1) as nat));
            }
            push_char(&mut text, '\n');
            assert(text@ =~= self@.rows_text((row + 1) as nat));
        }
        text
    }
}

} // verus!
