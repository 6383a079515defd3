//! The cells of a board are kept in an `array2d::Array2D`. This module holds
//! what the rest of the library assumes of that container; none of it is
//! proved here.

use crate::cell::{Cell, CELL_BYTES};
use array2d::Array2D;
use vstd::prelude::*;

verus! {

/// `array2d::Array2D`, a fixed-size two-dimensional array. Its fields are
/// private to its crate, so a value of it is opaque here.
#[verifier::external_type_specification]
#[verifier::external_body]
#[verifier::reject_recursive_types(T)]
pub struct ExArray2D<T: Clone>(array2d::Array2D<T>);

/// The rows of an array from top to bottom, each row from left to right: what
/// `Array2D::as_rows` would hand out.
pub uninterp spec fn array_rows(array: Array2D<Cell>) -> Seq<Seq<Cell>>;

/// The number of columns that an array was made with: what
/// `Array2D::num_columns` hands out. The rows alone do not tell it where
/// there is no row.
pub uninterp spec fn array_num_columns(array: Array2D<Cell>) -> nat;

/// Whether `(row, column)` is a position of the array.
pub open spec fn array_holds(array: Array2D<Cell>, row: int, column: int) -> bool {
    0 <= row < array_rows(array).len() && 0 <= column < array_num_columns(array)
}

/// `Array2D::filled_with`: an array of `num_rows` rows and `num_columns`
/// columns with a copy of `cell` at every position.
///
/// The outside function multiplies the two dimensions without a guard and
/// asks for a `Vec` of that many cells, which panics where the cells take
/// more than `isize::MAX` bytes: such dimensions are left out.
#[verifier::external_body]
pub(crate) fn array_filled_with(cell: Cell, num_rows: usize, num_columns: usize) -> (array: Array2D<
    Cell,
>)
    requires
        num_rows * num_columns * CELL_BYTES <= isize::MAX,
    ensures
        array_num_columns(array) == num_columns,
        array_rows(array) == Seq::new(
            num_rows as nat,
            |row: int| Seq::new(num_columns as nat, |column: int| cell),
        ),
{
    Array2D::filled_with(cell, num_rows, num_columns)
}

/// `Array2D::num_rows`: the number of rows.
#[verifier::external_body]
pub(crate) fn array_row_count(array: &Array2D<Cell>) -> (count: usize)
    ensures
        count == array_rows(*array).len(),
{
    array.num_rows()
}

/// `Array2D::num_columns`: the number of columns.
#[verifier::external_body]
pub(crate) fn array_column_count(array: &Array2D<Cell>) -> (count: usize)
    ensures
        count == array_num_columns(*array),
{
    array.num_columns()
}

/// `Array2D::get`: the cell at `(row, column)`, or nothing where that is not
/// a position of the array.
#[verifier::external_body]
pub(crate) fn array_get(array: &Array2D<Cell>, row: usize, column: usize) -> (found: Option<
    &Cell,
>)
    ensures
        found == (if array_holds(*array, row as int, column as int) {
            Some(&array_rows(*array)[row as int][column as int])
        } else {
            None
        }),
{
    array.get(row, column)
}

/// `Array2D::set`: puts `cell` at `(row, column)` and leaves every other
/// position as it was. Where `(row, column)` is not a position of the array
/// nothing changes and the answer is `false`. The outside function writes
/// only after its own test of the position, so it does not panic.
#[verifier::external_body]
pub(crate) fn array_set(
    array: &mut Array2D<Cell>,
    row: usize,
    column: usize,
    cell: Cell,
) -> (stored: bool)
    ensures
        stored == array_holds(*old(array), row as int, column as int),
        array_num_columns(*final(array)) == array_num_columns(*old(array)),
        array_rows(*final(array)) == (if stored {
            array_rows(*old(array)).update(
                row as int,
                array_rows(*old(array))[row as int].update(column as int, cell),
            )
        } else {
            array_rows(*old(array))
        }),
    no_unwind
{
    array.set(row, column, cell).is_ok()
}

/// `Clone::clone` of an `Array2D`: an array of the same shape that holds a
/// copy of each cell.
#[verifier::external_body]
pub(crate) fn array_clone(array: &Array2D<Cell>) -> (copy: Array2D<Cell>)
    ensures
        array_num_columns(copy) == array_num_columns(*array),
        array_rows(copy) == array_rows(*array),
{
    array.clone()
}

} // verus!
