//! Peterson's algorithm for two parties, as a transition system.
//!
//! The lock in [`crate::lock`] keeps three shared words: one "wants to enter"
//! flag per party and a turn byte. This module gives those words a
//! mathematical model ([`Flags`]), describes every single-word access a party
//! makes as one step of a transition system ([`System`], [`step`]), and proves
//! that no interleaving of those steps lets both parties hold the lock.

use vstd::prelude::*;

verus! {

/// Index of the low-priority party, the one that may wait.
pub const LOW: u8 = 0;

/// Index of the high-priority party, the one that must never wait.
pub const HIGH: u8 = 1;

/// The party a given party competes with.
pub open spec fn other(who: u8) -> u8 {
    if who == LOW {
        HIGH
    } else {
        LOW
    }
}

/// The three shared words of the lock.
#[derive(Clone, Copy, Debug, PartialEq, Eq)]
pub struct Flags {
    /// The low party has announced that it wants to enter, or is inside.
    pub wants_low: bool,
    /// The high party has announced that it wants to enter, or is inside.
    pub wants_high: bool,
    /// The party that goes first when both want to enter.
    pub turn: u8,
}

impl Flags {
    /// The words of a lock that nobody has touched yet.
    pub open spec fn initial() -> Flags {
        Flags { wants_low: false, wants_high: false, turn: LOW }
    }

    /// The "wants to enter" flag of `who`.
    pub open spec fn wants(self, who: u8) -> bool {
        if who == LOW {
            self.wants_low
        } else {
            self.wants_high
        }
    }

    /// `who` stores `true` into its own flag.
    pub open spec fn announce(self, who: u8) -> Flags {
        if who == LOW {
            Flags { wants_low: true, ..self }
        } else {
            Flags { wants_high: true, ..self }
        }
    }

    /// `who` stores the other party's index into the turn byte.
    pub open spec fn defer(self, who: u8) -> Flags {
        Flags { turn: other(who), ..self }
    }

    /// `who` stores `false` into its own flag.
    pub open spec fn retract(self, who: u8) -> Flags {
        if who == LOW {
            Flags { wants_low: false, ..self }
        } else {
            Flags { wants_high: false, ..self }
        }
    }

    /// The other party wants to enter and `who` has not been given the turn.
    pub open spec fn must_wait(self, who: u8) -> bool {
        self.wants(other(who)) && self.turn == other(who)
    }

    /// Neither party wants to enter.
    pub open spec fn idle(self) -> bool {
        !self.wants_low && !self.wants_high
    }
}

/// Where a party stands in its use of the lock.
#[derive(Clone, Copy, Debug, PartialEq, Eq)]
pub enum Phase {
    /// Not using the lock.
    Idle,
    /// Has set its own flag.
    Announced,
    /// Has handed the turn to the other party and is about to read the other
    /// party's flag.
    Deferred,
    /// Has read the other party's flag as set and is about to read the turn.
    Contended,
    /// Has found that it would have to wait and is about to clear its own
    /// flag again. Only the high party, which never waits, gets here.
    Rejected,
    /// Holds the lock.
    Holding,
}

/// The shared words together with the position of both parties.
#[derive(Clone, Copy, Debug, PartialEq, Eq)]
pub struct System {
    pub flags: Flags,
    pub low: Phase,
    pub high: Phase,
}

impl System {
    /// A fresh lock with both parties idle.
    pub open spec fn initial() -> System {
        System { flags: Flags::initial(), low: Phase::Idle, high: Phase::Idle }
    }

    /// The position of `who`.
    pub open spec fn phase(self, who: u8) -> Phase {
        if who == LOW {
            self.low
        } else {
            self.high
        }
    }

    /// This system with `who` moved to `phase` and the shared words replaced.
    pub open spec fn moved(self, who: u8, phase: Phase, flags: Flags) -> System {
        if who == LOW {
            System { flags, low: phase, high: self.high }
        } else {
            System { flags, low: self.low, high: phase }
        }
    }

    /// Both parties hold the lock at once.
    pub open spec fn both_holding(self) -> bool {
        self.low is Holding && self.high is Holding
    }
}

/// The position `who` reaches when it finds that it would have to wait: the
/// low party reads the other flag again, the high party gives up.
pub open spec fn when_blocked(who: u8) -> Phase {
    if who == LOW {
        Phase::Deferred
    } else {
        Phase::Rejected
    }
}

/// One single-word access by `who`: the next store or load of the operation
/// it is in. An idle party starts to acquire, a holding party releases.
pub open spec fn step(s: System, who: u8) -> System {
    match s.phase(who) {
        Phase::Idle => s.moved(who, Phase::Announced, s.flags.announce(who)),
        Phase::Announced => s.moved(who, Phase::Deferred, s.flags.defer(who)),
        Phase::Deferred => if s.flags.wants(other(who)) {
            s.moved(who, Phase::Contended, s.flags)
        } else {
            s.moved(who, Phase::Holding, s.flags)
        },
        Phase::Contended => if s.flags.turn == other(who) {
            s.moved(who, when_blocked(who), s.flags)
        } else {
            s.moved(who, Phase::Holding, s.flags)
        },
        Phase::Rejected => s.moved(who, Phase::Idle, s.flags.retract(who)),
        Phase::Holding => s.moved(who, Phase::Idle, s.flags.retract(who)),
    }
}

/// The system after the parties named in `schedule` have taken one step each,
/// in that order. Any entry other than [`LOW`] moves the high party.
pub open spec fn run(s: System, schedule: Seq<u8>) -> System
    decreases schedule.len(),
{
    if schedule.len() == 0 {
        s
    } else {
        step(run(s, schedule.drop_last()), schedule.last())
    }
}

impl System {
    /// Creates the system of a fresh lock, with both parties idle.
    pub fn new() -> (s: System)
        ensures
            s == System::initial(),
    {
        System {
            flags: Flags { wants_low: false, wants_high: false, turn: LOW },
            low: Phase::Idle,
            high: Phase::Idle,
        }
    }

    /// Lets `who` make its next access to the shared words. This is [`step`],
    /// to be run: a simulation can try out schedules with it.
    pub fn advance(&mut self, who: u8)
        ensures
            *final(self) == step(*old(self), who),
    {
        let low: bool = who == LOW;
        let rival: u8 = if low {
            HIGH
        } else {
            LOW
        };
        let phase: Phase = if low {
            self.low
        } else {
            self.high
        };
        let rival_wants: bool = if low {
            self.flags.wants_high
        } else {
            self.flags.wants_low
        };
        let next: Phase = match phase {
            Phase::Idle => {
                if low {
                    self.flags.wants_low = true;
                } else {
                    self.flags.wants_high = true;
                }
                Phase::Announced
            },
            Phase::Announced => {
                self.flags.turn = rival;
                Phase::Deferred
            },
            Phase::Deferred => {
                if rival_wants {
                    Phase::Contended
                } else {
                    Phase::Holding
                }
            },
            Phase::Contended => {
                if self.flags.turn != rival {
                    Phase::Holding
                } else if low {
                    Phase::Deferred
                } else {
                    Phase::Rejected
                }
            },
            Phase::Rejected | Phase::Holding => {
                if low {
                    self.flags.wants_low = false;
                } else {
                    self.flags.wants_high = false;
                }
                Phase::Idle
            },
        };
        if low {
            self.low = next;
        } else {
            self.high = next;
        }
    }
}

/// `phase` lies after the store to the turn byte and before the release.
pub open spec fn past_defer(phase: Phase) -> bool {
    phase is Deferred || phase is Contended || phase is Holding
}

/// What holds of every state that the protocol can reach.
pub open spec fn inv(s: System) -> bool {
    &&& s.flags.turn == LOW || s.flags.turn == HIGH
    &&& s.flags.wants_low <==> !(s.low is Idle)
    &&& s.flags.wants_high <==> !(s.high is Idle)
    &&& !(s.low is Rejected)
    &&& s.low is Holding && past_defer(s.high) ==> s.flags.turn == LOW
    &&& s.high is Holding && past_defer(s.low) ==> s.flags.turn == HIGH
}

/// A fresh lock satisfies the invariant.
pub proof fn lemma_initial_inv()
    ensures
        inv(System::initial()),
{
}

/// No single step of either party breaks the invariant.
pub proof fn lemma_step_preserves_inv(s: System, who: u8)
    requires
        inv(s),
    ensures
        inv(step(s, who)),
{
}

/// No interleaving of steps breaks the invariant.
pub proof fn lemma_run_preserves_inv(s: System, schedule: Seq<u8>)
    requires
        inv(s),
    ensures
        inv(run(s, schedule)),
    decreases schedule.len(),
{
    if schedule.len() > 0 {
        lemma_run_preserves_inv(s, schedule.drop_last());
        lemma_step_preserves_inv(run(s, schedule.drop_last()), schedule.last());
    }
}

/// Mutual exclusion: whatever the order in which the two parties take their
/// steps, starting from a fresh lock, they never hold the lock at once.
pub proof fn lemma_mutual_exclusion(schedule: Seq<u8>)
    ensures
        !run(System::initial(), schedule).both_holding(),
{
    lemma_initial_inv();
    lemma_run_preserves_inv(System::initial(), schedule);
}

/// The schedule in which `who` takes `n` steps in a row, as it does while the
/// other party cannot run.
pub open spec fn repeat(who: u8, n: nat) -> Seq<u8> {
    Seq::new(n, |i: int| who)
}

/// Running no step changes nothing.
pub proof fn lemma_run_none(s: System, who: u8)
    ensures
        run(s, repeat(who, 0)) == s,
{
}

/// One more step in a row is one step after the others.
pub proof fn lemma_run_one_more(s: System, who: u8, n: nat)
    ensures
        run(s, repeat(who, n + 1)) == step(run(s, repeat(who, n)), who),
{
    assert(repeat(who, n + 1).drop_last() =~= repeat(who, n));
}

/// A party that finds the other one idle enters within three steps of its
/// own, and all that changes is its own flag and the turn.
pub proof fn lemma_unopposed_entry(s: System, who: u8)
    requires
        who == LOW || who == HIGH,
        s.phase(who) is Idle,
        !s.flags.wants(other(who)),
    ensures
        run(s, repeat(who, 3)) == s.moved(
            who,
            Phase::Holding,
            s.flags.announce(who).defer(who),
        ),
{
    lemma_run_none(s, who);
    lemma_run_one_more(s, who, 0);
    lemma_run_one_more(s, who, 1);
    lemma_run_one_more(s, who, 2);
}

/// Fail-fast: when the high party starts an attempt while the low party
/// holds the lock, it never enters, has given up after four steps of its own
/// and is idle again after the fifth. Only the turn has changed by then.
pub proof fn lemma_high_fails_fast(s: System)
    requires
        inv(s),
        s.low is Holding,
        s.high is Idle,
    ensures
        forall|n: nat| n <= 5 ==> !(#[trigger] run(s, repeat(HIGH, n)).high is Holding),
        run(s, repeat(HIGH, 4)).high is Rejected,
        run(s, repeat(HIGH, 5)) == (System { flags: s.flags.defer(HIGH), ..s }),
{
    lemma_run_none(s, HIGH);
    lemma_run_one_more(s, HIGH, 0);
    lemma_run_one_more(s, HIGH, 1);
    lemma_run_one_more(s, HIGH, 2);
    lemma_run_one_more(s, HIGH, 3);
    lemma_run_one_more(s, HIGH, 4);
    assert forall|n: nat| n <= 5 implies !(#[trigger] run(s, repeat(HIGH, n)).high is Holding) by {
        assert(n == 0 || n == 1 || n == 2 || n == 3 || n == 4 || n == 5);
    }
}

/// The number of steps that the high party still has to take, at most, until
/// the attempt it is in has ended one way or the other.
pub open spec fn high_steps_left(phase: Phase) -> nat {
    match phase {
        Phase::Announced => 4,
        Phase::Deferred => 3,
        Phase::Contended => 2,
        Phase::Rejected => 1,
        Phase::Idle | Phase::Holding => 0,
    }
}

/// The high party never waits: each of its steps brings its attempt closer to
/// an end, whatever the shared words hold, and no step of the low party sets
/// it back. An attempt is over after five steps of the high party at most.
pub proof fn lemma_high_never_waits(s: System)
    ensures
        high_steps_left(s.high) > 0 ==> high_steps_left(step(s, HIGH).high) < high_steps_left(
            s.high,
        ),
        s.high is Idle ==> high_steps_left(step(s, HIGH).high) == 4,
        step(s, LOW).high == s.high,
{
}

/// The low party waits no longer than the high party is in its way: from
/// wherever the low party stands outside the lock, with the high party idle,
/// four steps of its own at most take it inside.
pub proof fn lemma_low_enters_once_high_is_idle(s: System)
    requires
        inv(s),
        s.high is Idle,
        !(s.low is Holding),
    ensures
        exists|n: nat| n <= 4 && #[trigger] run(s, repeat(LOW, n)).low is Holding,
{
    lemma_run_none(s, LOW);
    lemma_run_one_more(s, LOW, 0);
    lemma_run_one_more(s, LOW, 1);
    lemma_run_one_more(s, LOW, 2);
    lemma_run_one_more(s, LOW, 3);
    match s.low {
        Phase::Idle => {
            assert(run(s, repeat(LOW, 3)).low is Holding);
        },
        Phase::Announced => {
            assert(run(s, repeat(LOW, 2)).low is Holding);
        },
        Phase::Contended => {
            if s.flags.turn == HIGH {
                assert(run(s, repeat(LOW, 2)).low is Holding);
            } else {
                assert(run(s, repeat(LOW, 1)).low is Holding);
            }
        },
        _ => {
            assert(run(s, repeat(LOW, 1)).low is Holding);
        },
    }
}

} // verus!
