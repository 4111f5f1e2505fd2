//! Shared views over storage that its owner holds exclusively.
//!
//! [`one`] turns exclusive access to a value into a [`Shared`] cell, and
//! [`slice`] turns exclusive access to a run of values into a
//! [`SharedSlice`] of cells. A view copies nothing: it stands on the
//! storage it was made from, lives no longer than the access it was given,
//! and whatever was last written through it is what the storage holds when
//! the view ends. Further holders are made with `alias`; all of them read
//! and write the same cells, and the last write is the one that is read.

pub mod cell;
pub mod cells;
pub mod laws;
pub mod model;
pub mod range;

pub use cell::{one, Shared};
pub use cells::{slice, SharedSlice};
pub use range::RangeError;
