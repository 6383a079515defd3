//! The eight steps that lead from a position to the positions around it.

use vstd::prelude::*;

verus! {

/// The eight steps `(dcol, drow)` from a position to its neighbors.
pub const NEIGHBOR_OFFSETS: [(i32, i32); 8] = [
    (-1, -1),
    (-1, 0),
    (-1, 1),
    (0, -1),
    (0, 1),
    (1, -1),
    (1, 0),
    (1, 1),
];

/// Whether `(dcol, drow)` leads from a position to one of the eight around
/// it: each part is -1, 0 or 1, and they are not both 0.
pub open spec fn is_neighbor_step(dcol: int, drow: int) -> bool {
    -1 <= dcol <= 1 && -1 <= drow <= 1 && !(dcol == 0 && drow == 0)
}

/// Whether the table holds the step `(dcol, drow)`.
pub open spec fn in_table(dcol: int, drow: int) -> bool {
    exists|i: int|
        0 <= i < 8 && (#[trigger] NEIGHBOR_OFFSETS@[i]).0 == dcol && NEIGHBOR_OFFSETS@[i].1 == drow
}

/// The table holds each of the eight steps to a neighbor once, and nothing
/// else.
pub proof fn lemma_offsets_are_the_neighbors()
    ensures
        NEIGHBOR_OFFSETS@.len() == 8,
        forall|dcol: int, drow: int|
            #[trigger] in_table(dcol, drow) <==> is_neighbor_step(dcol, drow),
        forall|i: int, j: int|
            0 <= i < j < 8 ==> #[trigger] NEIGHBOR_OFFSETS@[i] != #[trigger] NEIGHBOR_OFFSETS@[j],
{
}

} // verus!
