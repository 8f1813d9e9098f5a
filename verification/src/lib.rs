//! A reference-counted lock for cooperative tasks, with a bounded fair queue.
//!
//! A [`Lock`] protects one value. Handles are cloned freely; a [`LockGuard`] stands
//! for exclusive access until it is given back with [`LockGuard::release`]. A task
//! that has to wait does not block its thread: it registers a listener, tries once
//! more, and sleeps on the listener until a release wakes it.
//!
//! # Fairness
//!
//! In open contention whoever comes first when the lock is free gets it, so a waiter
//! can lose again and again. A request that has waited for more than
//! [`lock::STARVED_AFTER_NANOS`] nanoseconds therefore takes a ticket and joins the
//! fair queue at its next attempt. While the queue is not empty the lock is never
//! free: a release hands it to the first ticket, and nobody but that ticket can
//! collect it. The queue spans at most [`model::WINDOW`] consecutive tickets, so
//! fewer than that many requests, all of which joined earlier, are served before a
//! ticket's own turn. A request that finds the queue full stays in open contention
//! until there is room.
//!
//! # Waking
//!
//! A release wakes one waiter, the one that has waited longest. That need not be the
//! one to whom the lock was handed: a waiter that wakes and finds the lock on its way
//! to another registers again and wakes one in its place, and so does a request that
//! gives up after it was told to wait.
//!
//! # Layout
//!
//! The whole state of a lock is one atomic word. Every operation on the lock is a
//! single atomic transition of that word ([`word::apply`]), a pure function whose
//! effect is stated over [`model::LockModel`], the mathematical picture of the lock:
//! whether it is held, whether it is being handed to a queued waiter, and which
//! tickets wait in the fair queue. What holds of every lock is proved of the model:
//! mutual exclusion, that nobody overtakes a queued request, that every new chance
//! is announced. What a request does in which order is laid down by the functions of
//! [`course`], which [`Acquire::advance`] follows act by act. [`protocol`] puts tasks
//! that follow the same functions around the lock and proves that none of them is
//! left asleep with no one on the way to wake it.

mod cell;
pub mod course;
mod event;
pub mod lock;
pub mod model;
pub mod protocol;
pub mod text;
pub mod word;

pub use lock::Acquire;
pub use lock::Lock;
pub use lock::LockGuard;
pub use lock::Step;
