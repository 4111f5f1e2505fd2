use vstd::prelude::*;

verus! {

/// The error for a position that a view does not have: the position asked
/// for, and the number of cells in the view.
#[derive(Clone, Copy, Debug, PartialEq, Eq, Structural)]
pub struct RangeError {
    pub index: usize,
    pub len: usize,
}

} // verus!
