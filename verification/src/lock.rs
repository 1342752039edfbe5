//! A fair exclusive lock over a FIFO waiter queue.
//!
//! At most one task holds the lock. A task that requests it while it is held
//! queues its wake token and suspends; release hands ownership directly to
//! the head of the queue, so grants come in strict first-come-first-served
//! order and no task can slip in between a release and the woken waiter.
//! Cancellation and grant both run under the caller's critical section, so a
//! cancelled request is either still queued (and is removed) or has already
//! been granted ownership, never both and never neither.

use vstd::prelude::*;

use crate::waiters::WaiterQueue;
use crate::waiters::lemma_without_token_membership;
use crate::waiters::without_token;

verus! {

/// What an acquisition request decided.
#[derive(Clone, Copy, Debug, PartialEq, Eq, Structural)]
pub enum AcquireStep {
    /// The lock was free: the caller is now the holder and proceeds.
    Granted,
    /// The lock is held: the caller's token was queued and the caller
    /// suspends until a release grants it ownership.
    Queued,
}

/// What cancelling an acquisition request found.
#[derive(Clone, Copy, Debug, PartialEq, Eq, Structural)]
pub enum LockCancel {
    /// The token was removed from the queue (or was no longer there): the
    /// request ends without the caller ever having owned the lock.
    Dequeued,
    /// The token had already been granted ownership: the caller holds the
    /// lock and must release it.
    Granted,
}

/// The mathematical content of the lock: the holder and the queued tokens.
#[verifier::ext_equal]
pub ghost struct LockModel {
    pub holder: Option<u64>,
    pub queue: Seq<u64>,
}

impl LockModel {
    /// Queued tokens are distinct, the holder is not among them, and a free
    /// lock has no queue: release always promotes the head, so nobody waits
    /// on a free lock.
    pub open spec fn wf(self) -> bool {
        &&& (forall|i: int, j: int|
            0 <= i < j < self.queue.len() ==> self.queue[i] != self.queue[j])
        &&& (self.holder is Some ==> !self.queue.contains(self.holder->0))
        &&& (self.holder is None ==> self.queue.len() == 0)
    }

    /// Whether the token is the holder or is queued.
    pub open spec fn involves(self, t: u64) -> bool {
        self.holder == Some(t) || self.queue.contains(t)
    }

    /// The model after an acquisition request by `t`.
    pub open spec fn after_acquire(self, t: u64) -> LockModel {
        if self.holder is None {
            LockModel { holder: Some(t), queue: self.queue }
        } else {
            LockModel { holder: self.holder, queue: self.queue.push(t) }
        }
    }

    /// The token a release wakes: the head of the queue, if any.
    pub open spec fn release_grant(self) -> Option<u64> {
        if self.queue.len() > 0 {
            Some(self.queue[0])
        } else {
            None
        }
    }

    /// The model after a release: ownership moves to the head waiter, or the
    /// lock becomes free.
    pub open spec fn after_release(self) -> LockModel {
        if self.queue.len() > 0 {
            LockModel { holder: Some(self.queue[0]), queue: self.queue.drop_first() }
        } else {
            LockModel { holder: None, queue: self.queue }
        }
    }

    /// The model after a queued request by `t` is cancelled.
    pub open spec fn after_cancel(self, t: u64) -> LockModel {
        LockModel { holder: self.holder, queue: without_token(self.queue, t) }
    }
}

/// A fair exclusive lock: the current holder's token and the FIFO queue of
/// tokens waiting for ownership.
pub struct FairLock {
    holder: Option<u64>,
    queue: WaiterQueue,
}

impl View for FairLock {
    type V = LockModel;

    closed spec fn view(&self) -> LockModel {
        LockModel { holder: self.holder, queue: self.queue@ }
    }
}

impl FairLock {
    /// A free lock with nobody waiting.
    pub fn new() -> (r: Self)
        ensures
            r@.holder is None,
            r@.queue == Seq::<u64>::empty(),
            r@.wf(),
    {
        FairLock { holder: None, queue: WaiterQueue::new() }
    }

    /// Whether some task holds the lock.
    pub fn is_held(&self) -> (r: bool)
        ensures
            r == (self@.holder is Some),
    {
        match self.holder {
            Some(_) => true,
            None => false,
        }
    }

    /// The holder's token, if any.
    pub fn holder(&self) -> (r: Option<u64>)
        ensures
            r == self@.holder,
    {
        self.holder
    }

    /// How many tasks wait for ownership.
    pub fn waiter_count(&self) -> (r: usize)
        ensures
            r == self@.queue.len(),
    {
        self.queue.len()
    }

    /// Requests ownership for `token`. If the lock is free the caller holds
    /// it at once; otherwise the token joins the tail of the queue and the
    /// caller suspends until a release grants it ownership.
    pub fn acquire(&mut self, token: u64) -> (r: AcquireStep)
        requires
            old(self)@.wf(),
            !old(self)@.involves(token),
        ensures
            final(self)@.wf(),
            final(self)@ == old(self)@.after_acquire(token),
            final(self)@.involves(token),
            (r == AcquireStep::Granted) <==> old(self)@.holder is None,
            r == AcquireStep::Granted ==> final(self)@.holder == Some(token),
            r == AcquireStep::Queued ==> final(self)@.queue.contains(token),
    {
        match self.holder {
            None => {
                self.holder = Some(token);
                AcquireStep::Granted
            },
            Some(_) => {
                self.queue.register(token);
                proof {
                    assert(self@.queue.last() == token);
                    assert(self@.queue.contains(token));
                }
                AcquireStep::Queued
            },
        }
    }

    /// Releases ownership. If tasks are waiting, ownership transfers
    /// directly to the head of the queue and that token is returned so the
    /// runtime can resume its task; otherwise the lock becomes free.
    pub fn release(&mut self) -> (woken: Option<u64>)
        requires
            old(self)@.wf(),
            old(self)@.holder is Some,
        ensures
            final(self)@.wf(),
            final(self)@ == old(self)@.after_release(),
            woken == old(self)@.release_grant(),
            woken == final(self)@.holder,
    {
        let woken = self.queue.wake_one();
        self.holder = woken;
        proof {
            let oldq = old(self)@.queue;
            if oldq.len() > 0 {
                assert forall|k: int| 0 <= k < oldq.drop_first().len()
                    implies oldq.drop_first()[k] != oldq[0] by {
                    assert(oldq.drop_first()[k] == oldq[k + 1]);
                }
                assert(!oldq.drop_first().contains(oldq[0]));
            }
            assert(final(self)@ =~= old(self)@.after_release());
        }
        woken
    }

    /// Withdraws an acquisition request. Under the same critical section as
    /// grant and release, the request is either still queued — its token is
    /// removed and it is as if the lock had never been requested — or it was
    /// already granted, in which case the caller holds the lock and must
    /// release it.
    pub fn cancel(&mut self, token: u64) -> (r: LockCancel)
        requires
            old(self)@.wf(),
        ensures
            final(self)@.wf(),
            (r == LockCancel::Granted) <==> old(self)@.holder == Some(token),
            r == LockCancel::Granted ==> final(self)@ == old(self)@,
            r == LockCancel::Dequeued ==> final(self)@ == old(self)@.after_cancel(token),
    {
        let held_by_caller = match self.holder {
            Some(h) => h == token,
            None => false,
        };
        if held_by_caller {
            LockCancel::Granted
        } else {
            self.queue.cancel(token);
            proof {
                let oldq = old(self)@.queue;
                let newq = self@.queue;
                lemma_without_subseq_distinct(oldq, token);
                if old(self)@.holder is Some {
                    lemma_without_token_membership(oldq, token, old(self)@.holder->0);
                }
                if old(self)@.holder is None {
                    assert(oldq =~= Seq::<u64>::empty());
                    assert(newq =~= Seq::<u64>::empty());
                }
            }
            LockCancel::Dequeued
        }
    }
}

/// Removing a token from a queue of distinct tokens leaves distinct tokens.
proof fn lemma_without_subseq_distinct(q: Seq<u64>, t: u64)
    requires
        forall|i: int, j: int| 0 <= i < j < q.len() ==> q[i] != q[j],
    ensures
        forall|i: int, j: int|
            0 <= i < j < without_token(q, t).len()
                ==> without_token(q, t)[i] != without_token(q, t)[j],
    decreases q.len(),
{
    if q.len() > 0 {
        let head = q.drop_last();
        assert(forall|i: int, j: int| 0 <= i < j < head.len() ==> head[i] != head[j]);
        lemma_without_subseq_distinct(head, t);
        let w = without_token(q, t);
        if q.last() != t {
            assert forall|i: int, j: int| 0 <= i < j < w.len() implies w[i] != w[j] by {
                if j == w.len() - 1 {
                    assert(w[i] == without_token(head, t)[i]);
                    lemma_without_token_membership_at(head, t, i);
                    let m = choose|m: int| 0 <= m < head.len() && head[m] == w[i];
                    assert(q[m] == w[i]);
                    assert(q[m] != q[q.len() - 1]);
                } else {
                    assert(w[i] == without_token(head, t)[i]);
                    assert(w[j] == without_token(head, t)[j]);
                }
            }
        }
    }
}

/// The element at any index of a removal's result was in the original queue.
proof fn lemma_without_token_membership_at(q: Seq<u64>, t: u64, i: int)
    requires
        0 <= i < without_token(q, t).len(),
    ensures
        q.contains(without_token(q, t)[i]),
{
    lemma_without_token_membership(q, t, without_token(q, t)[i]);
    assert(without_token(q, t).contains(without_token(q, t)[i]));
}

/// First come, first served: while the lock is held, waiters queued in some
/// order are granted ownership in exactly that order. With three waiters
/// arriving first, second, third, the next three releases wake and grant
/// them first, second, third.
pub proof fn lemma_fifo_grant_order(l: LockModel, w1: u64, w2: u64, w3: u64)
    requires
        l.wf(),
        l.holder is Some,
        l.queue.len() == 0,
        w1 != w2 && w1 != w3 && w2 != w3,
        !l.involves(w1) && !l.involves(w2) && !l.involves(w3),
    ensures
        ({
            let queued = l.after_acquire(w1).after_acquire(w2).after_acquire(w3);
            &&& queued.release_grant() == Some(w1)
            &&& queued.after_release().release_grant() == Some(w2)
            &&& queued.after_release().after_release().release_grant() == Some(w3)
            &&& queued.after_release().after_release().after_release().holder == Some(w3)
            &&& queued.after_release().after_release().after_release().queue.len() == 0
        }),
{
    let queued = l.after_acquire(w1).after_acquire(w2).after_acquire(w3);
    assert(queued.queue =~= seq![w1, w2, w3]);
    assert(queued.after_release().queue =~= seq![w2, w3]);
    assert(queued.after_release().after_release().queue =~= seq![w3]);
    assert(queued.after_release().after_release().after_release().queue
        =~= Seq::<u64>::empty());
}

} // verus!
