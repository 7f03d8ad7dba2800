//! Keeps [`LockPriority`](crate::lock::LockPriority) closed to other crates.

use vstd::prelude::*;

verus! {

/// A supertrait that cannot be named outside this crate.
pub trait Sealed {

}

} // verus!
