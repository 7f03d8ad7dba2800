use irq::mock_pac::interrupt;
use irq::{scope, Handler, HandlerAddr, Interrupt, SlotTable, Unhandled};
use std::cell::Cell;

fn nothing() {}

#[test]
fn not_registered() {
    let table = SlotTable::<interrupt>::new();
    table.trampoline(&interrupt::INT0).unwrap_err();
    table.trampoline(&interrupt::INT1).unwrap_err();
    table.trampoline(&interrupt::INT0).unwrap_err();
    table.trampoline(&interrupt::INT1).unwrap_err();
}

#[test]
fn lib_simple() {
    let table = SlotTable::<interrupt>::new();
    let mut i = 0;

    // The handler is made outside the call to `scope`; the scope owns it from
    // the registration on.
    let mut closure = || {
        i += 1;
    };
    let handler = Handler::new(&mut closure);

    let (table, ()) = scope(table, |scope| {
        assert!(scope.register(interrupt::INT0, handler).is_ok());

        // The handler is called when the interrupt is raised.
        scope.raise(&interrupt::INT0).unwrap();
    });

    assert_eq!(i, 1);

    // The end of the scope has deregistered the handler.
    table.trampoline(&interrupt::INT0).unwrap_err();
    assert_eq!(i, 1);
}

#[test]
fn handler_sharing_data() {
    let table = SlotTable::<interrupt>::new();
    let shared = vec![0, 1, 2];

    let mut closure0 = || println!("{:?}", shared);
    let mut closure1 = || println!("{:?}", shared);
    let handler0: Handler<&mut dyn FnMut()> = Handler::new(&mut closure0);
    let handler1: Handler<&mut dyn FnMut()> = Handler::new(&mut closure1);

    scope(table, |scope| {
        assert!(scope.register(interrupt::INT0, handler0).is_ok());
        assert!(scope.register(interrupt::INT1, handler1).is_ok());

        scope.raise(&interrupt::INT0).unwrap();
        scope.raise(&interrupt::INT1).unwrap();
    });
}

#[test]
fn slot_starts_empty_and_keeps_what_is_stored() {
    let mut slot = HandlerAddr::new();
    assert_eq!(slot.load(), 0);
    slot.store(0x2000_0100);
    assert_eq!(slot.load(), 0x2000_0100);
    slot.store(0);
    assert_eq!(slot.load(), 0);
}

#[test]
fn handler_invoke_calls_the_callback_once() {
    let calls = Cell::new(0u32);
    let mut handler = Handler::new(|| calls.set(calls.get() + 1));
    assert_eq!(calls.get(), 0);
    handler.invoke();
    assert_eq!(calls.get(), 1);
    handler.invoke();
    handler.invoke();
    assert_eq!(calls.get(), 3);
}

#[test]
fn mock_pac_has_one_slot_for_each_of_its_four_sources() {
    assert_eq!(<interrupt as Interrupt>::sources(), 4);
    assert_eq!(interrupt::INT0.slot(), 0);
    assert_eq!(interrupt::INT1.slot(), 1);
    assert_eq!(interrupt::INT2.slot(), 2);
    assert_eq!(interrupt::INT3.slot(), 3);
    assert_eq!(SlotTable::<interrupt>::new().len(), 4);
}

#[test]
fn unhandled_names_the_source() {
    let table = SlotTable::<interrupt>::new();
    assert_eq!(table.trampoline(&interrupt::INT0), Err(Unhandled { source: 0 }));
    assert_eq!(table.trampoline(&interrupt::INT1), Err(Unhandled { source: 1 }));
    assert_eq!(table.trampoline(&interrupt::INT2), Err(Unhandled { source: 2 }));
    assert_eq!(table.trampoline(&interrupt::INT3), Err(Unhandled { source: 3 }));
}

#[test]
fn raise_without_registration_is_an_error_inside_a_scope_too() {
    let table = SlotTable::<interrupt>::new();
    let calls = Cell::new(0u32);
    scope(table, |scope| {
        assert_eq!(scope.raise(&interrupt::INT2), Err(Unhandled { source: 2 }));
        assert!(scope.register(interrupt::INT1, Handler::new(|| calls.set(calls.get() + 1))).is_ok());
        // A registration for one source leaves the others without a handler.
        assert_eq!(scope.raise(&interrupt::INT0), Err(Unhandled { source: 0 }));
        assert_eq!(scope.raise(&interrupt::INT2), Err(Unhandled { source: 2 }));
        assert_eq!(scope.raise(&interrupt::INT3), Err(Unhandled { source: 3 }));
        assert_eq!(calls.get(), 0);
    });
}

#[test]
fn raise_calls_the_registered_handler_exactly_once_and_no_other() {
    let table = SlotTable::<interrupt>::new();
    let calls = [Cell::new(0u32), Cell::new(0u32), Cell::new(0u32)];
    let mut bump0 = || calls[0].set(calls[0].get() + 1);
    let mut bump1 = || calls[1].set(calls[1].get() + 1);
    let mut bump2 = || calls[2].set(calls[2].get() + 1);
    let handler0: Handler<&mut dyn FnMut()> = Handler::new(&mut bump0);
    let handler1: Handler<&mut dyn FnMut()> = Handler::new(&mut bump1);
    let handler2: Handler<&mut dyn FnMut()> = Handler::new(&mut bump2);

    scope(table, |scope| {
        // Registered in another order than that of the slots.
        assert!(scope.register(interrupt::INT3, handler0).is_ok());
        assert!(scope.register(interrupt::INT0, handler1).is_ok());
        assert!(scope.register(interrupt::INT2, handler2).is_ok());

        assert_eq!(scope.raise(&interrupt::INT0), Ok(()));
        assert_eq!((calls[0].get(), calls[1].get(), calls[2].get()), (0, 1, 0));
        assert_eq!(scope.raise(&interrupt::INT3), Ok(()));
        assert_eq!((calls[0].get(), calls[1].get(), calls[2].get()), (1, 1, 0));
        assert_eq!(scope.raise(&interrupt::INT2), Ok(()));
        assert_eq!((calls[0].get(), calls[1].get(), calls[2].get()), (1, 1, 1));
        assert_eq!(scope.raise(&interrupt::INT2), Ok(()));
        assert_eq!((calls[0].get(), calls[1].get(), calls[2].get()), (1, 1, 2));
        assert_eq!(scope.raise(&interrupt::INT1), Err(Unhandled { source: 1 }));
        assert_eq!((calls[0].get(), calls[1].get(), calls[2].get()), (1, 1, 2));
    });
}

#[test]
fn second_registration_for_a_source_is_rejected() {
    let table = SlotTable::<interrupt>::new();
    let first = Cell::new(0u32);
    let second = Cell::new(0u32);
    let mut bump_first = || first.set(first.get() + 1);
    let mut bump_second = || second.set(second.get() + 1);
    let handler0: Handler<&mut dyn FnMut()> = Handler::new(&mut bump_first);
    let handler1: Handler<&mut dyn FnMut()> = Handler::new(&mut bump_second);

    scope(table, |scope| {
        assert!(scope.register(interrupt::INT1, handler0).is_ok());
        // The rejected handler comes back and can still be called by hand.
        let mut rejected = match scope.register(interrupt::INT1, handler1) {
            Ok(()) => panic!("a source took two handlers in one scope"),
            Err(rejected) => rejected,
        };
        scope.raise(&interrupt::INT1).unwrap();
        assert_eq!((first.get(), second.get()), (1, 0));
        rejected.invoke();
        assert_eq!((first.get(), second.get()), (1, 1));
    });
}

#[test]
fn scope_deregisters_everything_and_returns_what_the_body_returns() {
    let table = SlotTable::<interrupt>::new();
    let (table, answer) = scope(table, |scope| {
        assert!(scope.register(interrupt::INT0, Handler::<fn()>::new(nothing)).is_ok());
        assert!(scope.register(interrupt::INT3, Handler::<fn()>::new(nothing)).is_ok());
        assert_eq!(scope.raise(&interrupt::INT0), Ok(()));
        assert_eq!(scope.raise(&interrupt::INT3), Ok(()));
        42
    });
    assert_eq!(answer, 42);
    assert_eq!(table.len(), 4);
    for source in [interrupt::INT0, interrupt::INT1, interrupt::INT2, interrupt::INT3] {
        assert!(table.trampoline(&source).is_err());
    }
}

#[test]
fn scope_deregisters_on_an_early_exit_of_the_body() {
    let table = SlotTable::<interrupt>::new();
    let (table, left_early) = scope(table, |scope| {
        if scope.register(interrupt::INT2, Handler::new(|| ())).is_ok() {
            return true;
        }
        false
    });
    assert!(left_early);
    assert_eq!(table.trampoline(&interrupt::INT2), Err(Unhandled { source: 2 }));
}

#[test]
fn a_source_can_be_registered_again_in_the_next_scope() {
    let table = SlotTable::<interrupt>::new();
    let calls = Cell::new(0u32);
    let (table, ()) = scope(table, |scope| {
        assert!(scope.register(interrupt::INT0, Handler::new(|| calls.set(calls.get() + 1))).is_ok());
        scope.raise(&interrupt::INT0).unwrap();
    });
    assert_eq!(calls.get(), 1);
    let (table, ()) = scope(table, |scope| {
        // Nothing is left over from the scope before.
        assert_eq!(scope.raise(&interrupt::INT0), Err(Unhandled { source: 0 }));
        assert!(scope.register(interrupt::INT0, Handler::new(|| calls.set(calls.get() + 10))).is_ok());
        scope.raise(&interrupt::INT0).unwrap();
    });
    assert_eq!(calls.get(), 11);
    assert!(table.trampoline(&interrupt::INT0).is_err());
}

#[test]
fn deregister_all_is_idempotent() {
    let mut table = SlotTable::<interrupt>::new();
    // Nothing was registered: nothing faults, nothing changes.
    table.deregister_all();
    table.deregister_all();
    assert_eq!(table.len(), 4);
    for source in [interrupt::INT0, interrupt::INT1, interrupt::INT2, interrupt::INT3] {
        assert!(table.trampoline(&source).is_err());
    }

    // After a scope the slots are empty already; a further cleanup keeps them so.
    let (mut table, ()) = scope(table, |scope| {
        assert!(scope.register(interrupt::INT1, Handler::new(|| ())).is_ok());
    });
    table.deregister_all();
    table.deregister_all();
    for source in [interrupt::INT0, interrupt::INT1, interrupt::INT2, interrupt::INT3] {
        assert!(table.trampoline(&source).is_err());
    }
}
