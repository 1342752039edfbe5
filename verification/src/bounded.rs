//! The fixed-capacity signal variant.
//!
//! The queue here holds at most a bound fixed at construction. The variant is
//! correct as long as the number of concurrent waiters never exceeds the
//! bound, which suits systems whose maximum waiter count is known statically.
//! A registration beyond the bound is a violated load assumption and is
//! reported as [`CapacityExceeded`], never papered over by dropping a waiter.

use vstd::prelude::*;

use crate::errors::CapacityExceeded;
use crate::signal::StateValue;
use crate::signal::WaitOutcome;
use crate::waiters::without_token;

verus! {

/// A FIFO queue of wake tokens with a fixed upper bound.
pub struct BoundedWaiterQueue {
    tokens: Vec<u64>,
    capacity: usize,
}

impl View for BoundedWaiterQueue {
    type V = Seq<u64>;

    closed spec fn view(&self) -> Seq<u64> {
        self.tokens@
    }
}

impl BoundedWaiterQueue {
    /// The bound the queue was built with.
    pub closed spec fn spec_capacity(&self) -> nat {
        self.capacity as nat
    }

    /// The queue never holds more tokens than its bound.
    pub open spec fn wf(&self) -> bool {
        self@.len() <= self.spec_capacity()
    }

    /// An empty queue with the given bound.
    pub fn new(capacity: usize) -> (r: Self)
        ensures
            r@ == Seq::<u64>::empty(),
            r.spec_capacity() == capacity,
            r.wf(),
    {
        BoundedWaiterQueue { tokens: Vec::new(), capacity }
    }

    /// How many tokens are pending.
    pub fn len(&self) -> (r: usize)
        ensures
            r == self@.len(),
    {
        self.tokens.len()
    }

    /// The bound the queue was built with.
    pub fn capacity(&self) -> (r: usize)
        ensures
            r == self.spec_capacity(),
    {
        self.capacity
    }

    /// Inserts a token at the tail if a slot is free; reports
    /// `CapacityExceeded`, changing nothing, if the queue is full.
    pub fn try_register(&mut self, token: u64) -> (r: Result<(), CapacityExceeded>)
        requires
            old(self).wf(),
        ensures
            final(self).wf(),
            final(self).spec_capacity() == old(self).spec_capacity(),
            (r is Ok) <==> old(self)@.len() < old(self).spec_capacity(),
            r is Ok ==> final(self)@ == old(self)@.push(token),
            r is Err ==> final(self)@ == old(self)@,
    {
        if self.tokens.len() < self.capacity {
            self.tokens.push(token);
            Ok(())
        } else {
            Err(CapacityExceeded)
        }
    }

    /// Drains the queue, returning every pending token in FIFO order.
    pub fn wake_all(&mut self) -> (r: Vec<u64>)
        ensures
            r@ == old(self)@,
            final(self)@ == Seq::<u64>::empty(),
            final(self).spec_capacity() == old(self).spec_capacity(),
            final(self).wf(),
    {
        let mut drained: Vec<u64> = Vec::new();
        let n = self.tokens.len();
        let mut i: usize = 0;
        while i < n
            invariant
                n == self.tokens.len(),
                self.tokens@ == old(self)@,
                0 <= i <= n,
                drained@ == old(self)@.subrange(0, i as int),
            decreases n - i,
        {
            drained.push(self.tokens[i]);
            proof {
                assert(drained@ =~= old(self)@.subrange(0, i + 1));
            }
            i = i + 1;
        }
        self.tokens.clear();
        proof {
            assert(drained@ =~= old(self)@);
        }
        drained
    }

    /// Removes the token if it is still pending; idempotent.
    pub fn cancel(&mut self, token: u64)
        ensures
            final(self)@ == without_token(old(self)@, token),
            final(self).spec_capacity() == old(self).spec_capacity(),
            old(self).wf() ==> final(self).wf(),
    {
        let mut kept: Vec<u64> = Vec::new();
        let n = self.tokens.len();
        let mut i: usize = 0;
        while i < n
            invariant
                n == self.tokens.len(),
                self.tokens@ == old(self)@,
                0 <= i <= n,
                kept@ == without_token(old(self)@.subrange(0, i as int), token),
                kept@.len() <= i,
            decreases n - i,
        {
            proof {
                assert(old(self)@.subrange(0, i + 1).drop_last()
                    =~= old(self)@.subrange(0, i as int));
                assert(old(self)@.subrange(0, i + 1).last() == old(self)@[i as int]);
            }
            if self.tokens[i] != token {
                kept.push(self.tokens[i]);
            }
            i = i + 1;
        }
        proof {
            assert(old(self)@.subrange(0, n as int) =~= old(self)@);
        }
        self.tokens = kept;
    }
}

/// A broadcast state-change signal whose waiter queue has a fixed bound.
pub struct BoundedStateSignal {
    current: StateValue,
    waiters: BoundedWaiterQueue,
}

impl BoundedStateSignal {
    /// The current state, for use in contracts.
    pub closed spec fn spec_state(&self) -> StateValue {
        self.current
    }

    /// The queued tokens, for use in contracts.
    pub closed spec fn spec_waiters(&self) -> Seq<u64> {
        self.waiters@
    }

    /// The bound, for use in contracts.
    pub closed spec fn spec_capacity(&self) -> nat {
        self.waiters.spec_capacity()
    }

    /// The queue never exceeds its bound.
    pub open spec fn wf(&self) -> bool {
        self.spec_waiters().len() <= self.spec_capacity()
    }

    /// A signal whose state is not ready, with room for `capacity` waiters.
    pub fn new(capacity: usize) -> (r: Self)
        ensures
            r.spec_state() == StateValue::NotReady,
            r.spec_waiters() == Seq::<u64>::empty(),
            r.spec_capacity() == capacity,
            r.wf(),
    {
        BoundedStateSignal {
            current: StateValue::NotReady,
            waiters: BoundedWaiterQueue::new(capacity),
        }
    }

    /// The current state.
    pub fn current_state(&self) -> (r: StateValue)
        ensures
            r == self.spec_state(),
    {
        self.current
    }

    /// Like the unbounded signal's wait, except that queuing the caller's
    /// token can fail: if the snapshot still matches and every slot is
    /// taken, the call reports `CapacityExceeded` and changes nothing.
    pub fn wait_until_changed(&mut self, snapshot: StateValue, token: u64) -> (r: Result<
        WaitOutcome,
        CapacityExceeded,
    >)
        requires
            old(self).wf(),
        ensures
            final(self).wf(),
            final(self).spec_state() == old(self).spec_state(),
            final(self).spec_capacity() == old(self).spec_capacity(),
            (r == Ok::<WaitOutcome, CapacityExceeded>(WaitOutcome::Ready))
                <==> (snapshot != old(self).spec_state()),
            r == Ok::<WaitOutcome, CapacityExceeded>(WaitOutcome::Ready)
                ==> final(self).spec_waiters() == old(self).spec_waiters(),
            (r == Ok::<WaitOutcome, CapacityExceeded>(WaitOutcome::Pending))
                <==> (snapshot == old(self).spec_state()
                    && old(self).spec_waiters().len() < old(self).spec_capacity()),
            r == Ok::<WaitOutcome, CapacityExceeded>(WaitOutcome::Pending)
                ==> final(self).spec_waiters() == old(self).spec_waiters().push(token),
            (r is Err)
                <==> (snapshot == old(self).spec_state()
                    && old(self).spec_waiters().len() == old(self).spec_capacity()),
            r is Err ==> final(self).spec_waiters() == old(self).spec_waiters(),
    {
        if self.current != snapshot {
            Ok(WaitOutcome::Ready)
        } else {
            match self.waiters.try_register(token) {
                Ok(()) => Ok(WaitOutcome::Pending),
                Err(e) => Err(e),
            }
        }
    }

    /// Sets the state and drains the queue, returning every parked token in
    /// FIFO order.
    pub fn publish(&mut self, new_state: StateValue) -> (woken: Vec<u64>)
        ensures
            woken@ == old(self).spec_waiters(),
            final(self).spec_state() == new_state,
            final(self).spec_waiters() == Seq::<u64>::empty(),
            final(self).spec_capacity() == old(self).spec_capacity(),
            final(self).wf(),
    {
        self.current = new_state;
        self.waiters.wake_all()
    }

    /// Removes the token of a waiter whose wait was cancelled; idempotent.
    pub fn cancel_wait(&mut self, token: u64)
        ensures
            final(self).spec_state() == old(self).spec_state(),
            final(self).spec_waiters() == without_token(old(self).spec_waiters(), token),
            final(self).spec_capacity() == old(self).spec_capacity(),
            old(self).wf() ==> final(self).wf(),
    {
        self.waiters.cancel(token);
    }
}

} // verus!
