//! The ownership cell.
//!
//! [`Refable`] holds either an owned value or a reference to an
//! externally-owned value of the same type, exposing uniform read-only
//! access.  Its re-borrow operation, [`Refable::clone_ref`], produces a
//! new cell in reference mode pointing at the same underlying value, so
//! a chain of derived readers shares one logical value instead of
//! deep-copying it.

use vstd::prelude::*;

verus! {

/// A value that is either owned by this cell or borrowed from outside.
#[derive(Debug)]
pub enum Refable<'a, T> {
    /// The cell owns the value.
    Owned(T),
    /// The cell references a value owned elsewhere.
    Borrowed(&'a T),
}

impl<'a, T> Refable<'a, T> {
    /// The contained value, regardless of the mode of the cell.
    pub open spec fn value(self) -> T {
        match self {
            Refable::Owned(v) => v,
            Refable::Borrowed(v) => *v,
        }
    }

    /// Uniform read-only access to the contained value.
    pub fn borrow(&self) -> (r: &T)
        ensures
            *r == self.value(),
    {
        match self {
            Refable::Owned(v) => v,
            Refable::Borrowed(v) => v,
        }
    }

    /// A new cell in reference mode pointing at the value contained
    /// here; used instead of a deep copy whenever a reader is derived
    /// from a parent.
    pub fn clone_ref(&'a self) -> (r: Self)
        ensures
            r is Borrowed,
            r.value() == self.value(),
    {
        Refable::Borrowed(self.borrow())
    }
}

} // verus!
