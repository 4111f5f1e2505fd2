//! What holds of every cell and every run of cells, whoever reads and
//! writes them and in whatever order.

use crate::model::{has_cell, out_of_range, read_at, write_at, write_outcome, written};
use crate::range::RangeError;
use vstd::prelude::*;

verus! {

/// A cell that held `v1` and was written with `v2` holds `v2`: that is what
/// every holder reads from it afterwards.
pub proof fn law_write_is_read<T>(v1: T, v2: T)
    ensures
        written(v1, v2) == v2,
{
}

/// Reading is idempotent: two reads of a cell with no write between them
/// see the same contents and give the same value.
pub proof fn law_reads_agree<T>(held: T, first: T, second: T)
    requires
        first == held,
        second == held,
    ensures
        first == second,
{
}

/// The last write wins: after a write of `x` and then a write of `y`, by
/// the same holder or by two, the cell holds `y`.
pub proof fn law_last_write_wins<T>(before: T, x: T, y: T)
    ensures
        written(written(before, x), y) == y,
{
}

/// In a run of cells, a write at a position that exists is what a read at
/// that position gives afterwards, and a second write there replaces the
/// first.
pub proof fn law_write_is_read_at<T>(cells: Seq<T>, index: usize, x: T, y: T)
    requires
        has_cell(cells, index),
    ensures
        read_at(write_at(cells, index, x), index) == Ok::<T, RangeError>(x),
        read_at(write_at(write_at(cells, index, x), index, y), index) == Ok::<T, RangeError>(y),
        write_at(cells, index, x).len() == cells.len(),
{
}

/// The cell at a position is that position: a write of `value` through the
/// cell's own view is a write at its position, and the value the cell's
/// view starts on is what a read at its position gives.
pub proof fn law_cell_is_position<T>(cells: Seq<T>, index: usize, value: T)
    requires
        has_cell(cells, index),
    ensures
        cells.update(index as int, written(cells[index as int], value)) == write_at(
            cells,
            index,
            value,
        ),
        read_at(cells, index) == Ok::<T, RangeError>(cells[index as int]),
        write_outcome(cells, index) == Ok::<(), RangeError>(()),
{
}

/// A write at one position changes no other position: a read anywhere else
/// gives what it gave before, whether or not either position exists.
pub proof fn law_write_is_local<T>(cells: Seq<T>, i: usize, j: usize, value: T)
    requires
        i != j,
    ensures
        read_at(write_at(cells, i, value), j) == read_at(cells, j),
{
}

/// A position past the end is refused with the range error, on reading and
/// on writing, and the attempt to write changes no cell.
pub proof fn law_out_of_range_is_refused<T>(cells: Seq<T>, index: usize, value: T)
    requires
        index >= cells.len(),
    ensures
        read_at(cells, index) == Err::<T, RangeError>(out_of_range(cells, index)),
        write_outcome(cells, index) == Err::<(), RangeError>(out_of_range(cells, index)),
        write_at(cells, index, value) == cells,
{
}

} // verus!
