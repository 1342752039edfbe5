//! A broadcast state-change signal with an unbounded waiter queue.
//!
//! A task that wants to wait for a change snapshots the current state and
//! calls [`StateSignal::wait_until_changed`]. If the state already differs
//! from the snapshot, the call reports [`WaitOutcome::Ready`] and the task
//! goes on without suspending. Otherwise the task's wake token is queued and
//! the call reports [`WaitOutcome::Pending`]: the runtime parks the task
//! until [`StateSignal::publish`] hands the token back. A resumed task has no
//! guarantee that the state still differs (wakeups may be spurious); it must
//! re-read the state and loop.

use vstd::prelude::*;

use crate::waiters::WaiterQueue;
use crate::waiters::without_token;

verus! {

/// The state a signal carries: either nothing yet, or a ready counter value.
#[derive(Clone, Copy, Debug, PartialEq, Eq, Structural)]
pub enum StateValue {
    NotReady,
    Ready(u32),
}

/// What a wait call decided.
#[derive(Clone, Copy, Debug, PartialEq, Eq, Structural)]
pub enum WaitOutcome {
    /// The state already differs from the snapshot; the caller proceeds.
    Ready,
    /// The caller's token was queued; the caller suspends.
    Pending,
}

/// The mathematical content of a signal: its state and its queued tokens.
#[verifier::ext_equal]
pub ghost struct SignalModel {
    pub state: StateValue,
    pub waiters: Seq<u64>,
}

impl SignalModel {
    /// The model after a wait that found the state unchanged and queued `t`.
    pub open spec fn after_pending_wait(self, t: u64) -> SignalModel {
        SignalModel { state: self.state, waiters: self.waiters.push(t) }
    }

    /// The tokens a publish hands back: every queued waiter.
    pub open spec fn publish_woken(self) -> Seq<u64> {
        self.waiters
    }

    /// The model after a publish: new state, no queued waiter left.
    pub open spec fn after_publish(self, v: StateValue) -> SignalModel {
        SignalModel { state: v, waiters: Seq::empty() }
    }

    /// The model after a run of pending waits, one per token, in order.
    pub open spec fn after_pending_waits(self, ts: Seq<u64>) -> SignalModel
        decreases ts.len(),
    {
        if ts.len() == 0 {
            self
        } else {
            self.after_pending_wait(ts[0]).after_pending_waits(ts.drop_first())
        }
    }
}

/// A current state value and the queue of tasks parked on it.
pub struct StateSignal {
    current: StateValue,
    waiters: WaiterQueue,
}

impl View for StateSignal {
    type V = SignalModel;

    closed spec fn view(&self) -> SignalModel {
        SignalModel { state: self.current, waiters: self.waiters@ }
    }
}

impl StateSignal {
    /// A signal whose state is not ready and on which nobody waits.
    pub fn new() -> (r: Self)
        ensures
            r@.state == StateValue::NotReady,
            r@.waiters == Seq::<u64>::empty(),
    {
        StateSignal { current: StateValue::NotReady, waiters: WaiterQueue::new() }
    }

    /// The current state. Resumed waiters re-read it through this.
    pub fn current_state(&self) -> (r: StateValue)
        ensures
            r == self@.state,
    {
        self.current
    }

    /// How many tasks are parked on the signal.
    pub fn waiter_count(&self) -> (r: usize)
        ensures
            r == self@.waiters.len(),
    {
        self.waiters.len()
    }

    /// Compares the caller's snapshot with the current state. If they differ
    /// the caller proceeds at once; if they are equal the caller's wake token
    /// is queued and the caller suspends.
    pub fn wait_until_changed(&mut self, snapshot: StateValue, token: u64) -> (r: WaitOutcome)
        ensures
            (r == WaitOutcome::Ready) <==> (snapshot != old(self)@.state),
            r == WaitOutcome::Ready ==> final(self)@ == old(self)@,
            r == WaitOutcome::Pending ==> final(self)@ == old(self)@.after_pending_wait(token),
    {
        if self.current != snapshot {
            WaitOutcome::Ready
        } else {
            self.waiters.register(token);
            WaitOutcome::Pending
        }
    }

    /// Sets the state and drains the queue, returning every parked token in
    /// FIFO order so the runtime can resume each of those tasks. No waiter
    /// queued before this call is left behind.
    pub fn publish(&mut self, new_state: StateValue) -> (woken: Vec<u64>)
        ensures
            woken@ == old(self)@.publish_woken(),
            final(self)@ == old(self)@.after_publish(new_state),
    {
        self.current = new_state;
        self.waiters.wake_all()
    }

    /// Removes the token of a waiter whose wait was cancelled, so a later
    /// publish cannot wake a task that has already moved on. Idempotent: if
    /// the token was already woken or cancelled, nothing changes.
    pub fn cancel_wait(&mut self, token: u64)
        ensures
            final(self)@.state == old(self)@.state,
            final(self)@.waiters == without_token(old(self)@.waiters, token),
    {
        self.waiters.cancel(token);
    }
}

/// Pending waits only append: after any run of them, the queue holds the old
/// tokens followed by the new ones, in arrival order.
pub proof fn lemma_pending_waits_accumulate(s: SignalModel, ts: Seq<u64>)
    ensures
        s.after_pending_waits(ts).state == s.state,
        s.after_pending_waits(ts).waiters == s.waiters + ts,
    decreases ts.len(),
{
    if ts.len() == 0 {
        assert(s.waiters + ts =~= s.waiters);
    } else {
        lemma_pending_waits_accumulate(s.after_pending_wait(ts[0]), ts.drop_first());
        assert(s.waiters.push(ts[0]) + ts.drop_first() =~= s.waiters + ts);
    }
}

/// No lost wakeup: after any number of tasks went to sleep on the signal,
/// one publish hands back the token of every one of them.
pub proof fn lemma_publish_wakes_every_waiter(s: SignalModel, ts: Seq<u64>)
    ensures
        forall|i: int|
            0 <= i < ts.len()
                ==> s.after_pending_waits(ts).publish_woken().contains(ts[i]),
{
    lemma_pending_waits_accumulate(s, ts);
    assert forall|i: int| 0 <= i < ts.len()
        implies s.after_pending_waits(ts).publish_woken().contains(ts[i]) by {
        assert(s.after_pending_waits(ts).publish_woken()[s.waiters.len() + i] == ts[i]);
    }
}

} // verus!
