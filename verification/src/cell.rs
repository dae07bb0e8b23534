//! A single-slot mutable container with copy-in/copy-out access.

use vstd::prelude::*;

verus! {

/// A container holding exactly one value, mutated in place for its whole
/// life. No method ever hands out a reference into the slot: writes fully
/// overwrite it and reads return an independent copy, so a copy obtained
/// earlier can never be invalidated by a later overwrite.
pub struct Cell<T> {
    value: T,
}

impl<T> View for Cell<T> {
    type V = T;

    closed spec fn view(&self) -> T {
        self.value
    }
}

impl<T> Cell<T> {
    /// Creates a cell owning `value`.
    pub fn new(value: T) -> (cell: Self)
        ensures
            cell@ == value,
    {
        Cell { value }
    }

    /// Overwrites the slot unconditionally; the previous contents are
    /// dropped. Observable only through later reads.
    pub fn set(&mut self, value: T)
        ensures
            final(self)@ == value,
    {
        self.value = value;
    }

    /// Returns a copy of the current contents, leaving the slot untouched.
    /// Duplicable contents are required precisely because the cell refuses
    /// to expose a reference into its interior.
    pub fn get(&self) -> (v: T) where T: Copy
        ensures
            v == self@,
    {
        self.value
    }
}

} // verus!
