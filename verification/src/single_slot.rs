//! The single-slot signal variant: a documented negative example.
//!
//! This signal stores at most one wake token. A second registration silently
//! overwrites the first, so the first waiter is never woken again: with two
//! or more concurrent waiters the "every waiter eventually wakes" requirement
//! fails. The contracts below state the overwrite plainly; the defect is
//! demonstrated, not hidden. Production code uses
//! [`crate::signal::StateSignal`], whose queue is unbounded.

use vstd::prelude::*;

use crate::signal::StateValue;
use crate::signal::WaitOutcome;

verus! {

/// A state value and room for exactly one parked wake token.
pub struct SingleSlotSignal {
    current: StateValue,
    slot: Option<u64>,
}

impl SingleSlotSignal {
    /// The current state, for use in contracts.
    pub closed spec fn spec_state(&self) -> StateValue {
        self.current
    }

    /// The occupied slot, for use in contracts.
    pub closed spec fn spec_slot(&self) -> Option<u64> {
        self.slot
    }

    /// A signal whose state is not ready and whose slot is empty.
    pub fn new() -> (r: Self)
        ensures
            r.spec_state() == StateValue::NotReady,
            r.spec_slot() is None,
    {
        SingleSlotSignal { current: StateValue::NotReady, slot: None }
    }

    /// The current state.
    pub fn current_state(&self) -> (r: StateValue)
        ensures
            r == self.spec_state(),
    {
        self.current
    }

    /// Like the unbounded signal's wait, except that a pending wait takes the
    /// single slot: whatever token sat there before is dropped unwoken. That
    /// overwrite is this variant's defect.
    pub fn wait_until_changed(&mut self, snapshot: StateValue, token: u64) -> (r: WaitOutcome)
        ensures
            (r == WaitOutcome::Ready) <==> (snapshot != old(self).spec_state()),
            final(self).spec_state() == old(self).spec_state(),
            r == WaitOutcome::Ready ==> final(self).spec_slot() == old(self).spec_slot(),
            r == WaitOutcome::Pending ==> final(self).spec_slot() == Some(token),
    {
        if self.current != snapshot {
            WaitOutcome::Ready
        } else {
            self.slot = Some(token);
            WaitOutcome::Pending
        }
    }

    /// Sets the state and returns the token in the slot, if any: at most one
    /// waiter resumes, however many went to sleep.
    pub fn publish(&mut self, new_state: StateValue) -> (woken: Option<u64>)
        ensures
            woken == old(self).spec_slot(),
            final(self).spec_state() == new_state,
            final(self).spec_slot() is None,
    {
        self.current = new_state;
        let woken = self.slot;
        self.slot = None;
        woken
    }

    /// Empties the slot if the given token occupies it; idempotent.
    pub fn cancel_wait(&mut self, token: u64)
        ensures
            final(self).spec_state() == old(self).spec_state(),
            old(self).spec_slot() == Some(token) ==> final(self).spec_slot() is None,
            old(self).spec_slot() != Some(token)
                ==> final(self).spec_slot() == old(self).spec_slot(),
    {
        let occupant = self.slot;
        match occupant {
            Some(t) => {
                if t == token {
                    self.slot = None;
                }
            },
            None => {},
        }
    }
}

} // verus!
