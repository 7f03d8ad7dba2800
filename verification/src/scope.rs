//! Scopes in which interrupt handlers are registered.
//!
//! Handlers are registered only inside [`scope`], through the [`Scope`] that
//! it hands to its body. The scope owns the table of handler slots while the
//! body runs, and it owns the handlers: no slot can hold the address of a
//! handler that has ceased to exist. When the body returns, `scope` empties
//! every slot and gives the table back.

use crate::handler::Handler;
use crate::interrupt::Interrupt;
use crate::slot::{SlotTable, Unhandled};
use vstd::prelude::*;

verus! {

/// Calls the callback of the handler at position `j`, once, and leaves the
/// other handlers alone.
fn invoke_at<F: FnMut()>(wrappers: &mut Vec<Handler<F>>, j: usize)
    requires
        j < old(wrappers).len(),
        old(wrappers)[j as int].callable(),
    ensures
        call_ensures(old(wrappers)[j as int].callback(), (), ()),
        final(wrappers).len() == old(wrappers).len(),
        final(wrappers)[j as int].callback() == old(wrappers)[j as int].callback(),
        final(wrappers)[j as int].invocations() == old(wrappers)[j as int].invocations() + 1,
        forall|i: int|
            0 <= i < old(wrappers).len() && i != j ==> final(wrappers)[i] == old(wrappers)[i],
{
    wrappers[j].invoke();
}

/// The registrations of one [`scope`].
///
/// A scope owns the handlers that are registered in it. The address that it
/// writes into a slot is the position of the handler among them, counted from
/// 1, so that 0 is left to mean that the slot is empty.
pub struct Scope<I: Interrupt, F: FnMut()> {
    table: SlotTable<I>,
    wrappers: Vec<Handler<F>>,
}

impl<I: Interrupt, F: FnMut()> Scope<I, F> {
    /// The words in the handler slots, by position.
    pub closed spec fn slots(&self) -> Seq<usize> {
        self.table@
    }

    /// The handlers registered so far, in the order of their registration.
    /// The handler with address `a` is at position `a - 1`.
    pub closed spec fn wrappers(&self) -> Seq<Handler<F>> {
        self.wrappers@
    }

    /// There is one slot for each source. Every slot is empty or holds the
    /// address of a handler that this scope owns, no two slots hold the same
    /// address, and every handler may be called.
    pub open spec fn wf(&self) -> bool {
        &&& self.slots().len() == I::count()
        &&& forall|k: int|
            0 <= k < self.slots().len() ==> #[trigger] self.slots()[k] <= self.wrappers().len()
        &&& forall|k: int, l: int|
            0 <= k < l < self.slots().len() && self.slots()[k] != 0 ==> #[trigger] self.slots()[k]
                != #[trigger] self.slots()[l]
        &&& forall|j: int|
            0 <= j < self.wrappers().len() ==> (#[trigger] self.wrappers()[j]).callable()
    }

    /// Nothing has been registered in this scope.
    pub open spec fn is_fresh(&self) -> bool {
        &&& self.slots() == crate::slot::empty_slots(I::count())
        &&& self.wrappers().len() == 0
    }

    /// Registers `handler` for `interrupt`, for as long as this scope lasts.
    ///
    /// A source takes one handler per scope. A second registration for the
    /// same source changes nothing and gives the handler back.
    pub fn register(&mut self, interrupt: I, handler: Handler<F>) -> (r: Result<(), Handler<F>>)
        requires
            old(self).wf(),
            handler.callable(),
        ensures
            final(self).wf(),
            match r {
                Ok(_) => {
                    &&& old(self).slots()[interrupt.slot_of() as int] == 0
                    &&& final(self).wrappers() == old(self).wrappers().push(handler)
                    &&& final(self).slots() == old(self).slots().update(
                        interrupt.slot_of() as int,
                        final(self).wrappers().len() as usize,
                    )
                },
                Err(rejected) => {
                    &&& old(self).slots()[interrupt.slot_of() as int] != 0
                    &&& rejected == handler
                    &&& final(self).slots() == old(self).slots()
                    &&& final(self).wrappers() == old(self).wrappers()
                },
            },
    {
        if self.table.load(&interrupt) != 0 {
            return Err(handler);
        }
        self.wrappers.push(handler);
        let addr: usize = self.wrappers.len();
        self.table.store(&interrupt, addr);
        Ok(())
    }

    /// The trampoline of `interrupt`, fired while this scope is active: calls
    /// the handler registered for the source once and no other handler, or
    /// reports that none is registered.
    pub fn raise(&mut self, interrupt: &I) -> (r: Result<(), Unhandled>)
        requires
            old(self).wf(),
        ensures
            final(self).wf(),
            final(self).slots() == old(self).slots(),
            final(self).wrappers().len() == old(self).wrappers().len(),
            match crate::slot::dispatch(old(self).slots(), interrupt.slot_of() as int) {
                Ok(addr) => {
                    &&& r is Ok
                    &&& 1 <= addr <= old(self).wrappers().len()
                    &&& call_ensures(old(self).wrappers()[addr - 1].callback(), (), ())
                    &&& final(self).wrappers()[addr - 1].callback() == old(
                        self,
                    ).wrappers()[addr - 1].callback()
                    &&& final(self).wrappers()[addr - 1].invocations() == old(
                        self,
                    ).wrappers()[addr - 1].invocations() + 1
                    &&& forall|j: int|
                        0 <= j < old(self).wrappers().len() && j != addr - 1
                            ==> final(self).wrappers()[j] == old(self).wrappers()[j]
                },
                Err(unhandled) => {
                    &&& r == Err::<(), Unhandled>(unhandled)
                    &&& final(self).wrappers() == old(self).wrappers()
                },
            },
    {
        match self.table.trampoline(interrupt) {
            Ok(addr) => {
                invoke_at(&mut self.wrappers, addr - 1);
                Ok(())
            },
            Err(unhandled) => Err(unhandled),
        }
    }
}

/// Runs `body` with a scope in which it can register handlers for the sources
/// of `table`, and deregisters them all when `body` returns. The table comes
/// back with every slot empty, together with what `body` returned.
///
/// The handlers are dropped only after the slots have been emptied.
pub fn scope<I: Interrupt, F: FnMut(), C, R>(table: SlotTable<I>, body: C) -> (done: (
    SlotTable<I>,
    R,
)) where C: FnOnce(&mut Scope<I, F>) -> R
    requires
        table.all_empty(),
        forall|s: &mut Scope<I, F>| s.wf() && s.is_fresh() ==> call_requires(body, (s,)),
    ensures
        done.0.all_empty(),
        exists|s: &mut Scope<I, F>| s.wf() && s.is_fresh() && call_ensures(body, (s,), done.1),
{
    let mut scope = Scope { table, wrappers: Vec::new() };
    assert(scope.wf() && scope.is_fresh());
    let r = body(&mut scope);
    let Scope { table: mut table, wrappers } = scope;
    table.deregister_all();
    (table, r)
}

} // verus!
