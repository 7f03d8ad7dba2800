//! Handler slots, and what a trampoline makes of them.
//!
//! Each interrupt source has one slot: a word that holds the address of the
//! handler that is registered for the source, or 0 while none is. The
//! trampoline of a source reads its slot when the interrupt fires. A
//! [`SlotTable`] holds the slots of all sources of one enumeration.

use crate::interrupt::Interrupt;
use core::marker::PhantomData;
use vstd::prelude::*;

verus! {

/// The handler slot of one interrupt source: a single word that holds the
/// address of the active handler, or 0 while none is registered.
#[derive(Debug)]
pub struct HandlerAddr {
    addr: usize,
}

impl HandlerAddr {
    /// The word in the slot.
    pub closed spec fn view(&self) -> usize {
        self.addr
    }

    /// No handler is registered.
    pub open spec fn is_empty(&self) -> bool {
        self@ == 0
    }

    /// Creates an empty slot.
    pub fn new() -> (slot: Self)
        ensures
            slot.is_empty(),
    {
        HandlerAddr { addr: 0 }
    }

    /// Reads the slot.
    pub fn load(&self) -> (addr: usize)
        ensures
            addr == self@,
    {
        self.addr
    }

    /// Writes `addr` into the slot; 0 empties it.
    pub fn store(&mut self, addr: usize)
        ensures
            final(self)@ == addr,
        no_unwind
    {
        self.addr = addr;
    }
}

/// An interrupt fired while no handler was registered for its source.
///
/// This is a configuration error: the source was enabled in hardware without a
/// handler in software. Whoever receives this error must halt rather than go
/// on as if nothing had happened.
#[derive(Clone, Copy, Debug, PartialEq, Eq)]
pub struct Unhandled {
    /// The position of the slot that was found empty, which names the source.
    pub source: usize,
}

/// `n` slots, all of them empty.
pub open spec fn empty_slots(n: nat) -> Seq<usize> {
    Seq::new(n, |k: int| 0usize)
}

/// The slots after a deregistration: as many as before, and all empty.
pub open spec fn deregistered(slots: Seq<usize>) -> Seq<usize> {
    empty_slots(slots.len())
}

/// What the trampoline of the source with slot `k` does when it fires: the
/// address of the handler that it calls, or the error that it reports.
pub open spec fn dispatch(slots: Seq<usize>, k: int) -> Result<usize, Unhandled> {
    if slots[k] == 0 {
        Err(Unhandled { source: k as usize })
    } else {
        Ok(slots[k])
    }
}

/// Deregistration is total and idempotent: it leaves every slot empty, it
/// changes nothing where nothing was registered, and a second deregistration
/// changes nothing any more.
pub proof fn lemma_deregistration_idempotent(slots: Seq<usize>)
    ensures
        forall|k: int| 0 <= k < slots.len() ==> #[trigger] deregistered(slots)[k] == 0,
        deregistered(deregistered(slots)) == deregistered(slots),
        slots == empty_slots(slots.len()) ==> deregistered(slots) == slots,
{
}

/// No dangling invocation: once the slots have been deregistered, whichever
/// trampoline fires finds its slot empty and reports an error, whatever
/// address the slot held before.
pub proof fn lemma_no_dangling_invocation(slots: Seq<usize>, k: int)
    requires
        0 <= k < slots.len(),
    ensures
        dispatch(deregistered(slots), k) == Err::<usize, Unhandled>(
            Unhandled { source: k as usize },
        ),
{
}

/// No handler is fatal: the trampoline of a source for which nothing is
/// registered reports an error that names the source, and a registration for
/// another source does not change that.
pub proof fn lemma_unregistered_is_fatal(slots: Seq<usize>, k: int, l: int, addr: usize)
    requires
        0 <= k < slots.len(),
        0 <= l < slots.len(),
        slots[k] == 0,
        l != k,
    ensures
        dispatch(slots, k) == Err::<usize, Unhandled>(Unhandled { source: k as usize }),
        dispatch(slots.update(l, addr), k) == dispatch(slots, k),
{
}

/// Writes `addr` into the slot at position `k` and leaves the others alone.
fn store_at(slots: &mut Vec<HandlerAddr>, k: usize, addr: usize)
    requires
        k < old(slots).len(),
    ensures
        final(slots).len() == old(slots).len(),
        final(slots)[k as int]@ == addr,
        forall|j: int| 0 <= j < old(slots).len() && j != k ==> final(slots)[j] == old(slots)[j],
    no_unwind
{
    slots[k].store(addr);
}

/// The handler slots of the interrupt sources `I`, one for each source.
pub struct SlotTable<I: Interrupt> {
    slots: Vec<HandlerAddr>,
    _sources: PhantomData<I>,
}

impl<I: Interrupt> SlotTable<I> {
    /// The words in the slots, by position.
    pub closed spec fn view(&self) -> Seq<usize> {
        Seq::new(self.slots.len() as nat, |k: int| self.slots[k]@)
    }

    /// The table has exactly one slot for each source.
    #[verifier::type_invariant]
    spec fn one_slot_each(self) -> bool {
        self.slots.len() == I::count()
    }

    /// There is one slot for each source, and no handler is registered for
    /// any of them.
    pub open spec fn all_empty(&self) -> bool {
        self@ == empty_slots(I::count())
    }

    /// Declares the sources: creates their slots, all of them empty.
    pub fn new() -> (table: Self)
        ensures
            table.all_empty(),
    {
        let n: usize = I::sources();
        let mut slots: Vec<HandlerAddr> = Vec::new();
        while slots.len() < n
            invariant
                slots.len() <= n,
                forall|k: int| 0 <= k < slots.len() ==> (#[trigger] slots[k])@ == 0,
            decreases n - slots.len(),
        {
            slots.push(HandlerAddr::new());
        }
        let table = SlotTable { slots, _sources: PhantomData };
        assert(table@ =~= empty_slots(I::count()));
        table
    }

    /// The number of slots, which is the number of sources.
    pub fn len(&self) -> (n: usize)
        ensures
            n == self@.len(),
            n == I::count(),
    {
        proof {
            use_type_invariant(self);
        }
        self.slots.len()
    }

    /// Reads the slot of `interrupt`.
    pub fn load(&self, interrupt: &I) -> (addr: usize)
        ensures
            interrupt.slot_of() < self@.len(),
            addr == self@[interrupt.slot_of() as int],
    {
        proof {
            use_type_invariant(self);
            interrupt.lemma_slot_in_range();
        }
        self.slots[interrupt.slot()].load()
    }

    /// The trampoline of `interrupt`, up to the call: reads the slot and
    /// returns the address of the handler to call, or the error that no
    /// handler is registered.
    pub fn trampoline(&self, interrupt: &I) -> (r: Result<usize, Unhandled>)
        ensures
            interrupt.slot_of() < self@.len(),
            r == dispatch(self@, interrupt.slot_of() as int),
    {
        let addr: usize = self.load(interrupt);
        if addr == 0 {
            Err(Unhandled { source: interrupt.slot() })
        } else {
            Ok(addr)
        }
    }

    /// Writes `addr` into the slot of `interrupt`.
    pub(crate) fn store(&mut self, interrupt: &I, addr: usize)
        ensures
            interrupt.slot_of() < old(self)@.len(),
            final(self)@ == old(self)@.update(interrupt.slot_of() as int, addr),
    {
        proof {
            use_type_invariant(&*self);
            interrupt.lemma_slot_in_range();
        }
        store_at(&mut self.slots, interrupt.slot(), addr);
        assert(self@ =~= old(self)@.update(interrupt.slot_of() as int, addr));
    }

    /// Empties every slot, whether a handler was registered in it or not.
    pub fn deregister_all(&mut self)
        ensures
            final(self)@ == deregistered(old(self)@),
            final(self).all_empty(),
    {
        proof {
            use_type_invariant(&*self);
        }
        let n: usize = self.slots.len();
        let mut k: usize = 0;
        while k < n
            invariant
                k <= n,
                n == self.slots.len(),
                n == I::count(),
                forall|j: int| 0 <= j < k ==> (#[trigger] self.slots[j])@ == 0,
            decreases n - k,
        {
            store_at(&mut self.slots, k, 0);
            k += 1;
        }
        assert(self@ =~= deregistered(old(self)@));
    }
}

} // verus!
