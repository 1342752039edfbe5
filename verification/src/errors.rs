//! The failure values this library can surface.
//!
//! Reference-count underflow or a double grant of the lock would be bugs in
//! the primitives themselves; they are ruled out here by the contracts and
//! invariants of the types involved, so no runtime value stands for them.

use vstd::prelude::*;

verus! {

/// An outer timeout elapsed while the task was suspended. Recoverable: the
/// caller may retry or move on, and every internal invariant was restored
/// before this value was surfaced.
#[derive(Clone, Copy, Debug, PartialEq, Eq, Structural)]
pub struct TimedOut;

/// A registration exceeded the static bound of a bounded waiter queue. This
/// reports a violated load assumption: the caller decides whether to treat
/// it as fatal.
#[derive(Clone, Copy, Debug, PartialEq, Eq, Structural)]
pub struct CapacityExceeded;

} // verus!
