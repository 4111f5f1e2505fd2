use crate::model::written;
use vstd::prelude::*;

verus! {

/// One value's storage, open to reading and writing by every holder the
/// view is lent to.
///
/// The view is the value that the storage holds now. `slot` is the storage
/// itself: its final value is what the owner finds when the view has ended.
pub struct Shared<'a, T> {
    pub slot: &'a mut T,
}

impl<'a, T: Copy> Shared<'a, T> {
    /// The value currently held.
    pub open spec fn view(&self) -> T {
        *self.slot
    }

    /// A copy of the value currently held. Reading changes nothing: every
    /// read until the next write returns this same value.
    pub fn get(&self) -> (value: T)
        ensures
            value == self@,
    {
        *self.slot
    }

    /// Overwrites the value held with `value`. The view stays on the same
    /// storage.
    pub fn set(&mut self, value: T)
        ensures
            final(self)@ == written(old(self)@, value),
            *final(final(self).slot) == *final(old(self).slot),
    {
        *self.slot = value;
    }

    /// A further holder of the same cell, for a scope inside this one. It
    /// starts on the value held now, and what it leaves behind is what this
    /// view holds afterwards.
    pub fn alias<'b>(&'b mut self) -> (other: Shared<'b, T>)
        ensures
            other@ == old(self)@,
            final(self)@ == *final(other.slot),
            *final(final(self).slot) == *final(old(self).slot),
    {
        Shared { slot: &mut *self.slot }
    }
}

/// Turns exclusive access to a value into a shared cell over the same
/// storage, for as long as the access was given.
///
/// The cell starts on the value that `data` held, and `data` ends on the
/// value that the cell ends on.
pub fn one<'a, T: Copy>(data: &'a mut T) -> (shared: Shared<'a, T>)
    ensures
        shared@ == *old(data),
        *final(data) == *final(shared.slot),
{
    Shared { slot: data }
}

} // verus!
