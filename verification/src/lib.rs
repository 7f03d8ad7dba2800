//! Utilities for interrupt handling.
//!
//! This crate provides:
//!
//! * Scoped interrupt handlers. A [`SlotTable`] declares the handler slots of
//!   a set of interrupt sources. Inside [`scope`], handlers can be registered
//!   for those sources; when `scope` returns, every slot is empty again, so no
//!   trampoline can reach a handler that has ceased to exist.
//!
//! * A [`PriorityLock`] that shares a value between two parties at different
//!   interrupt priorities, without any compare-and-swap instruction.
//!
//! Both are written as plain state that is handed to each operation by value
//! or by `&mut`: what an operation does to that state is what its contract
//! says. The [`peterson`] module proves, for every interleaving of the single
//! loads and stores that the lock's operations consist of, that the two
//! parties never hold the lock at the same time.
//!
//! # Examples
//!
//! A handler that counts the interrupts of one source, registered for the
//! length of a scope:
//!
//! ```text
//! let table = SlotTable::<interrupt>::new();
//! let mut seen = 0;
//! let handler = Handler::new(|| seen += 1);
//!
//! let (table, ()) = scope(table, |scope| {
//!     assert!(scope.register(interrupt::INT0, handler).is_ok());
//!     // INT0 fires.
//!     assert!(scope.raise(&interrupt::INT0).is_ok());
//! });
//!
//! assert_eq!(seen, 1);
//! // Outside the scope the source has no handler.
//! assert!(table.trampoline(&interrupt::INT0).is_err());
//! ```
//!
//! A counter shared between the idle loop and an interrupt handler:
//!
//! ```text
//! let mut lock = PriorityLock::new(0u32);
//! let (mut low, mut high) = lock.split();
//!
//! let mut guard = low.lock(&mut lock);
//! *guard += 1;
//! // An interrupt that preempts the holder cannot have the lock.
//! assert!(high.try_lock(&mut lock).is_err());
//! guard.unlock(&mut lock);
//!
//! assert!(high.try_lock(&mut lock).is_ok());
//! ```

pub mod handler;
pub mod interrupt;
pub mod lock;
pub mod mock_pac;
pub mod peterson;
pub mod scope;
mod sealed;
pub mod slot;

pub use crate::handler::Handler;
pub use crate::interrupt::Interrupt;
pub use crate::lock::{Deadlock, LockGuard, LockHalf, LockPriority, PHigh, PLow, PriorityLock};
pub use crate::scope::{scope, Scope};
pub use crate::slot::{HandlerAddr, SlotTable, Unhandled};
