//! What reads and writes mean, over plain values: a single cell is the
//! value it holds, a run of cells is the sequence of their values.

use crate::range::RangeError;
use vstd::prelude::*;

verus! {

/// What a cell holds after `value` is written to it. The write replaces the
/// whole of what the cell held before.
pub open spec fn written<T>(before: T, value: T) -> T {
    value
}

/// Whether `cells` has a cell at `index`.
pub open spec fn has_cell<T>(cells: Seq<T>, index: usize) -> bool {
    index < cells.len()
}

/// The error for asking `cells` for a position it does not have.
pub open spec fn out_of_range<T>(cells: Seq<T>, index: usize) -> RangeError {
    RangeError { index, len: cells.len() as usize }
}

/// What reading position `index` of `cells` gives.
pub open spec fn read_at<T>(cells: Seq<T>, index: usize) -> Result<T, RangeError> {
    if has_cell(cells, index) {
        Ok(cells[index as int])
    } else {
        Err(out_of_range(cells, index))
    }
}

/// What `cells` hold after an attempt to write `value` at `index`: the
/// write lands in that one cell, or nowhere.
pub open spec fn write_at<T>(cells: Seq<T>, index: usize, value: T) -> Seq<T> {
    if has_cell(cells, index) {
        cells.update(index as int, value)
    } else {
        cells
    }
}

/// What an attempt to write at `index` of `cells` returns.
pub open spec fn write_outcome<T>(cells: Seq<T>, index: usize) -> Result<(), RangeError> {
    if has_cell(cells, index) {
        Ok(())
    } else {
        Err(out_of_range(cells, index))
    }
}

} // verus!
