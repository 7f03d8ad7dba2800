use irq::peterson::{Flags, Phase, System, HIGH, LOW};

/// Runs `schedule` from a fresh lock.
fn run(schedule: &[u8]) -> System {
    let mut system = System::new();
    for who in schedule {
        system.advance(*who);
    }
    system
}

/// Visits every state that schedules of at most `depth` steps lead to.
fn explore(system: System, depth: u32, visit: &mut dyn FnMut(System)) {
    visit(system);
    if depth > 0 {
        for who in [LOW, HIGH] {
            let mut next = system;
            next.advance(who);
            explore(next, depth - 1, visit);
        }
    }
}

#[test]
fn fresh_system_is_idle() {
    let system = System::new();
    assert_eq!(system.flags, Flags { wants_low: false, wants_high: false, turn: LOW });
    assert_eq!(system.low, Phase::Idle);
    assert_eq!(system.high, Phase::Idle);
}

#[test]
fn unopposed_party_enters_in_three_steps_and_leaves_in_one() {
    let system = run(&[LOW]);
    assert_eq!(system.low, Phase::Announced);
    assert_eq!(system.flags, Flags { wants_low: true, wants_high: false, turn: LOW });

    let system = run(&[LOW, LOW]);
    assert_eq!(system.low, Phase::Deferred);
    assert_eq!(system.flags, Flags { wants_low: true, wants_high: false, turn: HIGH });

    let system = run(&[LOW, LOW, LOW]);
    assert_eq!(system.low, Phase::Holding);
    assert_eq!(system.high, Phase::Idle);
    assert_eq!(system.flags, Flags { wants_low: true, wants_high: false, turn: HIGH });

    let system = run(&[LOW, LOW, LOW, LOW]);
    assert_eq!(system.low, Phase::Idle);
    assert_eq!(system.flags, Flags { wants_low: false, wants_high: false, turn: HIGH });

    let system = run(&[HIGH, HIGH, HIGH]);
    assert_eq!(system.high, Phase::Holding);
    assert_eq!(system.low, Phase::Idle);
    assert_eq!(system.flags, Flags { wants_low: false, wants_high: true, turn: LOW });
}

#[test]
fn high_party_gives_up_in_five_steps_while_low_party_holds() {
    let holding = run(&[LOW, LOW, LOW]);
    let mut system = holding;
    let mut phases = Vec::new();
    for _ in 0..5 {
        system.advance(HIGH);
        assert_eq!(system.low, Phase::Holding);
        phases.push(system.high);
    }
    assert_eq!(
        phases,
        vec![Phase::Announced, Phase::Deferred, Phase::Contended, Phase::Rejected, Phase::Idle]
    );
    // Only the turn has changed.
    assert_eq!(system.flags, Flags { wants_low: true, wants_high: false, turn: LOW });
}

#[test]
fn low_party_waits_while_high_party_holds_and_enters_after_the_release() {
    let mut system = run(&[HIGH, HIGH, HIGH, LOW, LOW]);
    assert_eq!(system.high, Phase::Holding);
    assert_eq!(system.low, Phase::Deferred);
    for _ in 0..10 {
        system.advance(LOW);
        assert_eq!(system.low, Phase::Contended);
        system.advance(LOW);
        assert_eq!(system.low, Phase::Deferred);
    }
    system.advance(HIGH);
    assert_eq!(system.high, Phase::Idle);
    system.advance(LOW);
    assert_eq!(system.low, Phase::Holding);
}

#[test]
fn high_party_is_rejected_while_low_party_is_still_on_its_way_in() {
    // The low party has announced itself and handed over the turn, then it is
    // preempted. The high party takes the turn back to the low party, finds
    // its flag set and gives up.
    let system = run(&[LOW, LOW, HIGH, HIGH, HIGH, HIGH]);
    assert_eq!(system.low, Phase::Deferred);
    assert_eq!(system.high, Phase::Rejected);
    let system = run(&[LOW, LOW, HIGH, HIGH, HIGH, HIGH, HIGH, LOW]);
    assert_eq!(system.high, Phase::Idle);
    assert_eq!(system.low, Phase::Holding);
}

#[test]
fn no_schedule_lets_both_parties_hold_the_lock() {
    let mut states = 0u32;
    explore(System::new(), 16, &mut |system| {
        states += 1;
        assert!(
            !(system.low == Phase::Holding && system.high == Phase::Holding),
            "both parties hold the lock: {:?}",
            system
        );
        // A flag is set exactly while its party is not idle.
        assert_eq!(system.flags.wants_low, system.low != Phase::Idle);
        assert_eq!(system.flags.wants_high, system.high != Phase::Idle);
        // Only the high party ever gives up.
        assert_ne!(system.low, Phase::Rejected);
    });
    assert_eq!(states, (1 << 17) - 1);
}

#[test]
fn an_attempt_of_the_high_party_ends_within_five_of_its_steps() {
    // From every state in which the high party is idle, whatever the low
    // party does in between, the fifth step of the high party at the latest
    // ends its attempt.
    explore(System::new(), 10, &mut |start| {
        if start.high != Phase::Idle {
            return;
        }
        for low_steps_between in 0..4 {
            let mut system = start;
            let mut ended = false;
            for _ in 0..5 {
                system.advance(HIGH);
                if system.high == Phase::Holding || system.high == Phase::Idle {
                    ended = true;
                    break;
                }
                for _ in 0..low_steps_between {
                    system.advance(LOW);
                }
            }
            assert!(ended, "the high party is still trying: {:?}", system);
        }
    });
}
