//! The wrapper around a callback that handles an interrupt.

use vstd::prelude::*;

verus! {

/// Wraps a callback used as an interrupt handler.
///
/// The callback takes no argument and returns nothing; what it works on, it
/// has captured. A handler does nothing until it is handed to
/// [`Scope::register`](crate::scope::Scope::register).
///
/// The wrapper is generic in the callback. Where handlers of different shape
/// are to live in one scope, wrap `&mut dyn FnMut()` or `fn()`, which are
/// callbacks themselves.
pub struct Handler<F: FnMut()> {
    f: F,
    invocations: Ghost<nat>,
}

impl<F: FnMut()> Handler<F> {
    /// The wrapped callback, as it was when it was wrapped.
    pub closed spec fn callback(&self) -> F {
        self.f
    }

    /// The number of times that the callback has been called through this
    /// wrapper.
    pub closed spec fn invocations(&self) -> nat {
        self.invocations@
    }

    /// The callback may be called.
    pub open spec fn callable(&self) -> bool {
        call_requires(self.callback(), ())
    }

    /// Wraps the callback `f`.
    pub fn new(f: F) -> (handler: Self)
        ensures
            handler.callback() == f,
            handler.invocations() == 0,
    {
        Handler { f, invocations: Ghost(0) }
    }

    /// Calls the callback, once.
    pub fn invoke(&mut self)
        requires
            old(self).callable(),
        ensures
            call_ensures(old(self).callback(), (), ()),
            final(self).callback() == old(self).callback(),
            final(self).invocations() == old(self).invocations() + 1,
    {
        (self.f)();
        proof {
            self.invocations@ = self.invocations@ + 1;
        }
    }
}

} // verus!
