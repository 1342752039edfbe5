//! An unbounded FIFO queue of wake tokens.
//!
//! A wake token is an opaque `u64` handle that the surrounding runtime uses
//! to resume one suspended task. The queue never blocks: registering,
//! waking and cancelling are synchronous operations meant to run under the
//! caller's critical section.

use vstd::prelude::*;

verus! {

/// The tokens of `q` with every occurrence of `t` removed, order kept.
pub open spec fn without_token(q: Seq<u64>, t: u64) -> Seq<u64>
    decreases q.len(),
{
    if q.len() == 0 {
        Seq::empty()
    } else {
        let rest = without_token(q.drop_last(), t);
        if q.last() == t {
            rest
        } else {
            rest.push(q.last())
        }
    }
}

/// Removing a token that is not in the queue leaves the queue as it was.
pub proof fn lemma_without_absent_token(q: Seq<u64>, t: u64)
    requires
        !q.contains(t),
    ensures
        without_token(q, t) == q,
    decreases q.len(),
{
    if q.len() > 0 {
        assert(q[q.len() - 1] != t);
        assert(forall|i: int| 0 <= i < q.drop_last().len() ==> q.drop_last()[i] == q[i]);
        lemma_without_absent_token(q.drop_last(), t);
        assert(without_token(q, t) =~= q);
    } else {
        assert(without_token(q, t) =~= q);
    }
}

/// Registering a token and then removing it restores the queue, provided the
/// token was not registered before.
pub proof fn lemma_without_registered_token(q: Seq<u64>, t: u64)
    requires
        !q.contains(t),
    ensures
        without_token(q.push(t), t) == q,
{
    assert(q.push(t).drop_last() =~= q);
    lemma_without_absent_token(q, t);
}

/// Every token left after a removal was in the queue and is not the removed one.
pub proof fn lemma_without_token_membership(q: Seq<u64>, t: u64, x: u64)
    ensures
        without_token(q, t).contains(x) ==> q.contains(x) && x != t,
    decreases q.len(),
{
    if q.len() > 0 {
        lemma_without_token_membership(q.drop_last(), t, x);
        if without_token(q, t).contains(x) {
            let w = without_token(q, t);
            let i = choose|i: int| 0 <= i < w.len() && w[i] == x;
            if q.last() != t && i == w.len() - 1 {
                assert(q.contains(q.last()));
            } else {
                assert(without_token(q.drop_last(), t).contains(x));
                let j = choose|j: int|
                    0 <= j < q.drop_last().len() && q.drop_last()[j] == x;
                assert(q[j] == x);
            }
        }
    }
}

/// An unbounded FIFO queue of pending wake tokens.
pub struct WaiterQueue {
    tokens: Vec<u64>,
}

impl View for WaiterQueue {
    type V = Seq<u64>;

    closed spec fn view(&self) -> Seq<u64> {
        self.tokens@
    }
}

impl WaiterQueue {
    /// An empty queue.
    pub fn new() -> (r: Self)
        ensures
            r@ == Seq::<u64>::empty(),
    {
        WaiterQueue { tokens: Vec::new() }
    }

    /// How many tokens are pending.
    pub fn len(&self) -> (r: usize)
        ensures
            r == self@.len(),
    {
        self.tokens.len()
    }

    /// Whether no token is pending.
    pub fn is_empty(&self) -> (r: bool)
        ensures
            r == (self@.len() == 0),
    {
        self.tokens.len() == 0
    }

    /// Whether the given token is pending.
    pub fn contains(&self, token: u64) -> (r: bool)
        ensures
            r == self@.contains(token),
    {
        let n = self.tokens.len();
        let mut i: usize = 0;
        while i < n
            invariant
                n == self.tokens.len(),
                0 <= i <= n,
                forall|j: int| 0 <= j < i ==> self.tokens@[j] != token,
            decreases n - i,
        {
            if self.tokens[i] == token {
                return true;
            }
            i = i + 1;
        }
        false
    }

    /// Inserts a token at the tail.
    pub fn register(&mut self, token: u64)
        ensures
            final(self)@ == old(self)@.push(token),
    {
        self.tokens.push(token);
    }

    /// Removes and returns the head token, if any.
    pub fn wake_one(&mut self) -> (r: Option<u64>)
        ensures
            old(self)@.len() == 0 ==> r is None && final(self)@ == old(self)@,
            old(self)@.len() > 0 ==> r == Some(old(self)@[0])
                && final(self)@ == old(self)@.drop_first(),
    {
        if self.tokens.len() == 0 {
            None
        } else {
            let t = self.tokens.remove(0);
            proof {
                assert(self.tokens@ =~= old(self)@.drop_first());
            }
            Some(t)
        }
    }

    /// Drains the queue, returning every pending token in FIFO order.
    pub fn wake_all(&mut self) -> (r: Vec<u64>)
        ensures
            r@ == old(self)@,
            final(self)@ == Seq::<u64>::empty(),
    {
        let mut drained: Vec<u64> = Vec::new();
        let n = self.tokens.len();
        let mut i: usize = 0;
        while i < n
            invariant
                n == self.tokens.len(),
                self.tokens@ == old(self)@,
                0 <= i <= n,
                drained@ == old(self)@.subrange(0, i as int),
            decreases n - i,
        {
            drained.push(self.tokens[i]);
            proof {
                assert(drained@ =~= old(self)@.subrange(0, i + 1));
            }
            i = i + 1;
        }
        self.tokens.clear();
        proof {
            assert(drained@ =~= old(self)@);
        }
        drained
    }

    /// Removes the token if it is still pending. Idempotent: removing a token
    /// that was already woken or cancelled leaves the queue as it is.
    pub fn cancel(&mut self, token: u64)
        ensures
            final(self)@ == without_token(old(self)@, token),
    {
        let mut kept: Vec<u64> = Vec::new();
        let n = self.tokens.len();
        let mut i: usize = 0;
        while i < n
            invariant
                n == self.tokens.len(),
                self.tokens@ == old(self)@,
                0 <= i <= n,
                kept@ == without_token(old(self)@.subrange(0, i as int), token),
            decreases n - i,
        {
            proof {
                assert(old(self)@.subrange(0, i + 1).drop_last()
                    =~= old(self)@.subrange(0, i as int));
                assert(old(self)@.subrange(0, i + 1).last() == old(self)@[i as int]);
            }
            if self.tokens[i] != token {
                kept.push(self.tokens[i]);
            }
            i = i + 1;
        }
        proof {
            assert(old(self)@.subrange(0, n as int) =~= old(self)@);
        }
        self.tokens = kept;
    }
}

} // verus!
