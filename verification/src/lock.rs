//! A lock shared by two parties of different priority.
//!
//! The lock follows Peterson's algorithm and so needs nothing but plain loads
//! and stores of single words. Its two halves are asymmetric: the low half
//! waits for the lock, the high half (which has preempted the low one and would
//! wait forever) fails at once instead.
//!
//! The lock is a plain value that is handed to every operation by `&mut`. A
//! guard owns the protected value while it exists: to acquire the lock is to
//! move the value out of it, to release the lock is to move it back. That at
//! most one party holds the value at a time is therefore visible in the state
//! of the lock itself, see [`PriorityLock::wf`]. A guard cannot reach the lock
//! when it is dropped, so the release is a call of its own,
//! [`LockGuard::unlock`].
//!
//! Each operation is also stated as a run of the protocol in
//! [`crate::peterson`], where it is a sequence of single accesses to the
//! shared words that the other party may interleave with its own.

use crate::peterson;
use crate::peterson::{Flags, Phase, System, HIGH, LOW};
use crate::sealed::Sealed;
use core::marker::PhantomData;
use core::ops::{Deref, DerefMut};
use vstd::prelude::*;

verus! {

/// Implemented by the two priority markers [`PLow`] and [`PHigh`], and by
/// nothing else.
pub trait LockPriority: Sealed {
    /// Index of this party's "wants to enter" flag.
    const INDEX: u8;

    /// The party that this marker stands for: [`LOW`] or [`HIGH`].
    spec fn party() -> u8;

    /// The index is that of the party, and the party is one of the two.
    proof fn lemma_index_is_party()
        ensures
            Self::INDEX == Self::party(),
            Self::party() == LOW || Self::party() == HIGH,
    ;
}

/// Marks the high-priority half of a [`PriorityLock`].
#[derive(Debug)]
pub enum PHigh {
    High,
}

/// Marks the low-priority half of a [`PriorityLock`].
#[derive(Debug)]
pub enum PLow {
    Low,
}

impl Sealed for PHigh {

}

impl Sealed for PLow {

}

impl LockPriority for PLow {
    const INDEX: u8 = 0;

    open spec fn party() -> u8 {
        LOW
    }

    proof fn lemma_index_is_party() {
    }
}

impl LockPriority for PHigh {
    const INDEX: u8 = 1;

    open spec fn party() -> u8 {
        HIGH
    }

    proof fn lemma_index_is_party() {
    }
}

/// The high half could not acquire the lock without waiting.
///
/// Waiting in a context that has preempted the holder would never end, so the
/// caller has to deal with the failure itself. The type has no `Debug` impl:
/// a `Result` that carries it cannot simply be unwrapped.
pub struct Deadlock {}

/// A value shared between a low-priority and a high-priority party.
#[derive(Debug)]
pub struct PriorityLock<T> {
    wants_to_enter: [bool; 2],
    turn: u8,
    data: Option<T>,
}

impl<T> PriorityLock<T> {
    /// The three shared words.
    pub closed spec fn flags(&self) -> Flags {
        Flags {
            wants_low: self.wants_to_enter[0],
            wants_high: self.wants_to_enter[1],
            turn: self.turn,
        }
    }

    /// The protected value, while no guard owns it.
    pub closed spec fn value(&self) -> Option<T> {
        self.data
    }

    /// At most one party wants to enter, and the protected value is in the
    /// lock exactly while neither does. Every operation of this module keeps a
    /// lock in this state.
    pub open spec fn wf(&self) -> bool {
        &&& self.flags().turn == LOW || self.flags().turn == HIGH
        &&& !(self.flags().wants_low && self.flags().wants_high)
        &&& self.value() is Some <==> self.flags().idle()
    }

    /// Nobody holds the lock.
    pub open spec fn is_free(&self) -> bool {
        self.flags().idle()
    }

    /// `who` holds the lock.
    pub open spec fn held_by(&self, who: u8) -> bool {
        self.flags().wants(who) && !self.flags().wants(peterson::other(who))
    }

    /// The lock as a state of the protocol: a party whose flag is set is
    /// holding, the other is idle.
    pub open spec fn system(&self) -> System {
        System {
            flags: self.flags(),
            low: if self.flags().wants_low {
                Phase::Holding
            } else {
                Phase::Idle
            },
            high: if self.flags().wants_high {
                Phase::Holding
            } else {
                Phase::Idle
            },
        }
    }

    /// A well-formed lock is in a state in which the protocol's invariant
    /// holds, and in which the two parties do not both hold the lock.
    pub proof fn lemma_wf_is_reachable(&self)
        requires
            self.wf(),
        ensures
            peterson::inv(self.system()),
            !self.system().both_holding(),
    {
    }

    /// Creates a free lock that protects `data`.
    pub fn new(data: T) -> (lock: Self)
        ensures
            lock.flags() == Flags::initial(),
            lock.system() == System::initial(),
            lock.value() == Some(data),
            lock.wf(),
            lock.is_free(),
    {
        PriorityLock { wants_to_enter: [false, false], turn: 0, data: Some(data) }
    }

    /// Hands out the two halves of the lock.
    ///
    /// The low half offers [`lock`](LockHalf::lock) and is for the party of
    /// lower priority, such as the idle loop. The high half offers
    /// [`try_lock`](LockHalf::try_lock) and is for the party that may preempt
    /// the other. The halves carry no state of their own; they decide, by
    /// their type, which way of acquiring the lock a party may use.
    pub fn split(&mut self) -> (halves: (LockHalf<T, PLow>, LockHalf<T, PHigh>))
        ensures
            final(self).flags() == old(self).flags(),
            final(self).value() == old(self).value(),
    {
        let low = LockHalf { _p: PhantomData };
        let high = LockHalf { _p: PhantomData };
        (low, high)
    }

    /// One attempt of party `index` to enter: announce, hand the turn to the
    /// other party, and look once whether the other party is in the way. If it
    /// is, the announcement is taken back.
    fn try_acquire_raw(&mut self, index: u8) -> (r: Result<(), ()>)
        requires
            index == LOW || index == HIGH,
        ensures
            ({
                let s = old(self).flags().announce(index).defer(index);
                &&& r is Err <==> s.must_wait(index)
                &&& final(self).flags() == if s.must_wait(index) {
                    s.retract(index)
                } else {
                    s
                }
            }),
            final(self).value() == old(self).value(),
    {
        let other_index: u8 = (index + 1) % 2;

        // We want to enter.
        self.wants_to_enter[index as usize] = true;
        // Give the other party a chance to run.
        self.turn = other_index;

        // Does the other party want to enter, and has it not handed the turn
        // back to us?
        if self.wants_to_enter[other_index as usize] && self.turn == other_index {
            // Not acquired: we no longer want to enter.
            self.wants_to_enter[index as usize] = false;
            Err(())
        } else {
            Ok(())
        }
    }

    /// Party `index` enters, waiting for as long as the other party is in the
    /// way.
    ///
    /// The lock is borrowed exclusively for the whole call, so the other party
    /// cannot clear its flag meanwhile: a call that has to wait would wait
    /// forever. The precondition leaves those calls out.
    fn block_acquire_raw(&mut self, index: u8)
        requires
            index == LOW || index == HIGH,
            !old(self).flags().wants(peterson::other(index)),
        ensures
            final(self).flags() == old(self).flags().announce(index).defer(index),
            final(self).value() == old(self).value(),
    {
        let other_index: u8 = (index + 1) % 2;

        // We want to enter.
        self.wants_to_enter[index as usize] = true;
        // Give the other party a chance to run.
        self.turn = other_index;

        // Wait while the other party wants to enter and has not handed the
        // turn back to us.
        while self.wants_to_enter[other_index as usize] && self.turn == other_index
            invariant
                other_index == LOW || other_index == HIGH,
                !self.wants_to_enter[other_index as int],
            decreases 0int,
        {
        }
    }

    /// Party `index` leaves.
    fn unlock(&mut self, index: u8)
        requires
            index == LOW || index == HIGH,
        ensures
            final(self).flags() == old(self).flags().retract(index),
            final(self).value() == old(self).value(),
    {
        self.wants_to_enter[index as usize] = false;
    }
}

/// One half of a [`PriorityLock`], obtained from [`PriorityLock::split`].
#[derive(Debug)]
pub struct LockHalf<T, P: LockPriority> {
    _p: PhantomData<(T, P)>,
}

impl<T> LockHalf<T, PLow> {
    /// Acquires `lock` for the low-priority party and hands out the protected
    /// value.
    ///
    /// The low party waits for the lock. Nothing else runs while this call
    /// borrows the lock, so it must be free on entry: with the high half
    /// inside, or with an earlier guard of the low half still alive, the call
    /// would never return.
    pub fn lock(&mut self, lock: &mut PriorityLock<T>) -> (guard: LockGuard<T, PLow>)
        requires
            old(lock).wf(),
            old(lock).is_free(),
        ensures
            final(lock).wf(),
            final(lock).held_by(LOW),
            final(lock).flags() == old(lock).flags().announce(LOW).defer(LOW),
            final(lock).system() == peterson::run(old(lock).system(), peterson::repeat(LOW, 3)),
            final(lock).value() is None,
            old(lock).value() == Some(guard@),
    {
        proof {
            peterson::lemma_unopposed_entry(lock.system(), LOW);
        }
        lock.block_acquire_raw(0);
        let data = lock.data.take().unwrap();
        LockGuard { data, _p: PhantomData }
    }
}

impl<T> LockHalf<T, PHigh> {
    /// Tries to acquire `lock` for the high-priority party, without ever
    /// waiting.
    ///
    /// The attempt succeeds exactly if the lock is free. It fails if the low
    /// party holds the lock, and also if the high party itself already does.
    /// Either way the turn now lies with the low party, and a failed attempt
    /// leaves both flags as they were.
    pub fn try_lock(&mut self, lock: &mut PriorityLock<T>) -> (r: Result<
        LockGuard<T, PHigh>,
        Deadlock,
    >)
        requires
            old(lock).wf(),
        ensures
            final(lock).wf(),
            r is Ok <==> old(lock).is_free(),
            final(lock).flags() == if old(lock).is_free() {
                old(lock).flags().announce(HIGH).defer(HIGH)
            } else {
                old(lock).flags().defer(HIGH)
            },
            old(lock).is_free() ==> final(lock).system() == peterson::run(
                old(lock).system(),
                peterson::repeat(HIGH, 3),
            ),
            old(lock).held_by(LOW) ==> final(lock).system() == peterson::run(
                old(lock).system(),
                peterson::repeat(HIGH, 5),
            ),
            match r {
                Ok(guard) => {
                    &&& final(lock).held_by(HIGH)
                    &&& final(lock).value() is None
                    &&& old(lock).value() == Some(guard@)
                },
                Err(_) => final(lock).value() == old(lock).value(),
            },
    {
        proof {
            if lock.is_free() {
                peterson::lemma_unopposed_entry(lock.system(), HIGH);
            }
            if lock.held_by(LOW) {
                peterson::lemma_high_fails_fast(lock.system());
            }
        }
        match lock.try_acquire_raw(1) {
            Err(_) => Err(Deadlock {  }),
            Ok(_) => match lock.data.take() {
                Some(data) => Ok(LockGuard { data, _p: PhantomData }),
                // The high party is inside already: it cannot enter twice.
                None => Err(Deadlock {  }),
            },
        }
    }
}

/// Keeps a [`PriorityLock`] acquired and owns the protected value meanwhile.
///
/// The guard gives the value back with [`unlock`](LockGuard::unlock). A guard
/// that is dropped instead takes the value with it and leaves the lock held
/// for good.
#[must_use]
pub struct LockGuard<T, P: LockPriority> {
    data: T,
    _p: PhantomData<P>,
}

impl<T, P: LockPriority> LockGuard<T, P> {
    /// The protected value.
    pub closed spec fn view(&self) -> T {
        self.data
    }

    /// Releases `lock`, which this guard was acquired from, and moves the
    /// protected value back into it.
    pub fn unlock(self, lock: &mut PriorityLock<T>)
        requires
            old(lock).wf(),
            old(lock).held_by(P::party()),
        ensures
            final(lock).wf(),
            final(lock).is_free(),
            final(lock).flags() == old(lock).flags().retract(P::party()),
            final(lock).system() == peterson::step(old(lock).system(), P::party()),
            final(lock).value() == Some(self@),
    {
        proof {
            P::lemma_index_is_party();
        }
        lock.data = Some(self.data);
        lock.unlock(P::INDEX);
    }
}

impl<T, P: LockPriority> Deref for LockGuard<T, P> {
    type Target = T;

    fn deref(&self) -> (value: &T)
        ensures
            *value == self@,
    {
        &self.data
    }
}

impl<T, P: LockPriority> DerefMut for LockGuard<T, P> {
    fn deref_mut(&mut self) -> (value: &mut T)
        ensures
            *value == old(self)@,
            final(self)@ == *final(value),
    {
        &mut self.data
    }
}

} // verus!
