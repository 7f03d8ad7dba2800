//! A stand-in for the interrupt enumeration of a peripheral access crate.

use crate::interrupt::Interrupt;
use vstd::prelude::*;

verus! {

/// The interrupt sources of a device with four interrupt lines.
#[allow(non_camel_case_types)]
#[derive(Clone, Copy, Debug, PartialEq, Eq)]
pub enum interrupt {
    INT0,
    INT1,
    INT2,
    INT3,
}

impl Interrupt for interrupt {
    open spec fn count() -> nat {
        4
    }

    open spec fn slot_of(&self) -> nat {
        match self {
            interrupt::INT0 => 0,
            interrupt::INT1 => 1,
            interrupt::INT2 => 2,
            interrupt::INT3 => 3,
        }
    }

    proof fn lemma_one_slot_each(a: Self, b: Self) {
    }

    proof fn lemma_slot_in_range(&self) {
    }

    fn sources() -> (n: usize) {
        4
    }

    fn slot(&self) -> (k: usize) {
        match self {
            interrupt::INT0 => 0,
            interrupt::INT1 => 1,
            interrupt::INT2 => 2,
            interrupt::INT3 => 3,
        }
    }
}

} // verus!
