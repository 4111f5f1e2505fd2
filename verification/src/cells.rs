use crate::cell::Shared;
use crate::model::{has_cell, out_of_range, read_at, write_at, write_outcome};
use crate::range::RangeError;
use vstd::prelude::*;

verus! {

/// A run of cells over contiguous storage, each open to reading and writing
/// on its own. The number of cells is fixed when the view is made.
///
/// The view is the sequence of the values held now, in storage order.
/// `slots` is the storage itself: its final value is what the owner finds
/// when the view has ended.
pub struct SharedSlice<'a, T> {
    pub slots: &'a mut [T],
}

impl<'a, T: Copy> SharedSlice<'a, T> {
    /// The values currently held, in order.
    pub open spec fn view(&self) -> Seq<T> {
        self.slots@
    }

    /// The number of cells.
    pub fn len(&self) -> (n: usize)
        ensures
            n == self@.len(),
    {
        self.slots.len()
    }

    /// A copy of the value held at `index`, or the range error where the
    /// view has no such cell. Reading changes nothing.
    pub fn get(&self, index: usize) -> (r: Result<T, RangeError>)
        ensures
            r == read_at(self@, index),
    {
        let n: usize = self.slots.len();
        if index < n {
            Ok(self.slots[index])
        } else {
            Err(RangeError { index, len: n })
        }
    }

    /// Overwrites the value held at `index` with `value` and leaves every
    /// other cell as it was. Where the view has no such cell, nothing is
    /// written and the range error is returned.
    pub fn set(&mut self, index: usize, value: T) -> (r: Result<(), RangeError>)
        ensures
            r == write_outcome(old(self)@, index),
            final(self)@ == write_at(old(self)@, index, value),
            final(final(self).slots)@ == final(old(self).slots)@,
    {
        let n: usize = self.slots.len();
        if index < n {
            self.slots[index] = value;
            Ok(())
        } else {
            Err(RangeError { index, len: n })
        }
    }

    /// The cell at `index` as a view of its own, for a scope inside this
    /// one. It starts on the value held there now; what it leaves behind is
    /// what this view holds at `index` afterwards, and no other cell
    /// changes. Where the view has no such cell, the range error is
    /// returned and nothing changes.
    pub fn cell<'b>(&'b mut self, index: usize) -> (r: Result<Shared<'b, T>, RangeError>)
        ensures
            r is Ok <==> has_cell(old(self)@, index),
            r is Ok ==> r->Ok_0@ == old(self)@[index as int] && final(self)@ == old(self)@.update(
                index as int,
                *final(r->Ok_0.slot),
            ),
            r is Err ==> r->Err_0 == out_of_range(old(self)@, index) && final(self)@ == old(
                self,
            )@,
            final(final(self).slots)@ == final(old(self).slots)@,
    {
        let n: usize = self.slots.len();
        if index < n {
            Ok(Shared { slot: &mut self.slots[index] })
        } else {
            Err(RangeError { index, len: n })
        }
    }

    /// A further holder of the same cells, for a scope inside this one. It
    /// starts on the values held now, and what it leaves behind is what
    /// this view holds afterwards.
    pub fn alias<'b>(&'b mut self) -> (other: SharedSlice<'b, T>)
        ensures
            other@ == old(self)@,
            final(self)@ == final(other.slots)@,
            final(final(self).slots)@ == final(old(self).slots)@,
    {
        SharedSlice { slots: &mut *self.slots }
    }
}

/// Turns exclusive access to a run of values into a run of shared cells over
/// the same storage, for as long as the access was given. Order and
/// positions are kept.
///
/// The cells start on the values that `data` held, and `data` ends on the
/// values that the cells end on.
pub fn slice<'a, T: Copy>(data: &'a mut [T]) -> (shared: SharedSlice<'a, T>)
    ensures
        shared@ == old(data)@,
        final(data)@ == final(shared.slots)@,
{
    SharedSlice { slots: data }
}

} // verus!
