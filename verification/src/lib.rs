//! A synchronization core for cooperatively scheduled tasks.
//!
//! The library models, as verified synchronous state machines, the pieces a
//! cooperative runtime needs to let any number of tasks wait on a shared
//! state change and to share a lazily constructed resource:
//!
//! - a FIFO queue of wake tokens ([`waiters`], with a bounded variant in
//!   [`bounded`] and a deliberately broken single-slot variant in
//!   [`single_slot`]);
//! - a broadcast state-change signal ([`signal`]);
//! - a fair, first-come-first-served exclusive lock ([`lock`]);
//! - an on-demand resource that combines the lock with a reference counter
//!   and a lazily constructed payload ([`resource`]).
//!
//! Tasks are identified by opaque wake tokens (`u64`). Every operation here
//! runs synchronously under the caller's critical section; suspension and
//! resumption are the surrounding runtime's business. An operation that would
//! suspend the caller reports so in its result, and the runtime parks the
//! task until the token is handed back by a wake operation.

pub mod bounded;
pub mod errors;
pub mod lock;
pub mod resource;
pub mod shared;
pub mod signal;
pub mod single_slot;
pub mod waiters;
