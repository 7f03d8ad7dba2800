//! Interrupt sources.

use vstd::prelude::*;

verus! {

/// An enumeration of interrupt sources, each with a handler slot of its own.
///
/// An implementation numbers the sources: it says how many there are and which
/// slot, counted from 0, belongs to each.
pub trait Interrupt: Sized {
    /// The number of sources, and so of handler slots.
    spec fn count() -> nat;

    /// The position of this source's slot among the `count()` slots.
    spec fn slot_of(&self) -> nat;

    /// Every source has its slot among the `count()` slots.
    proof fn lemma_slot_in_range(&self)
        ensures
            self.slot_of() < Self::count(),
    ;

    /// Two sources that share a slot are the same source.
    proof fn lemma_one_slot_each(a: Self, b: Self)
        requires
            a.slot_of() == b.slot_of(),
        ensures
            a == b,
    ;

    /// The number of sources.
    fn sources() -> (n: usize)
        ensures
            n == Self::count(),
    ;

    /// The position of this source's slot.
    fn slot(&self) -> (k: usize)
        ensures
            k == self.slot_of(),
    ;
}

} // verus!
