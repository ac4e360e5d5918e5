//! Single-owner heap indirection.
//!
//! An [`ExclusiveBox`] owns its payload alone: there is no sharing and no
//! run-time bookkeeping. Exclusive read and write access follows from the
//! move-only transfer semantics of the handle itself, and destruction releases
//! the storage immediately.

use vstd::prelude::*;

verus! {

/// The sole owner of a heap-allocated payload.
pub struct ExclusiveBox<T> {
    contents: Box<T>,
}

impl<T> ExclusiveBox<T> {
    /// The payload the box owns.
    pub closed spec fn value(self) -> T {
        *self.contents
    }

    /// Allocates storage holding `value`; the new box is the sole owner.
    pub fn new(value: T) -> (b: Self)
        ensures
            b.value() == value,
    {
        ExclusiveBox { contents: Box::new(value) }
    }

    /// Reads the payload through the single owner.
    pub fn get(&self) -> (r: &T)
        ensures
            *r == self.value(),
    {
        &self.contents
    }

    /// Writes the payload in place; exclusivity needs no run-time check.
    pub fn set(&mut self, value: T)
        ensures
            final(self).value() == value,
    {
        *self.contents = value;
    }

    /// Consumes the box and hands the payload back to the caller.
    pub fn into_inner(self) -> (r: T)
        ensures
            r == self.value(),
    {
        *self.contents
    }
}

} // verus!
