//! A lazily constructed, reference-counted, cancel-safe guarded resource.
//!
//! The resource composes the fair exclusive lock with a reference counter
//! and an optional payload, here a model of an output pin. Acquisition
//! first bumps the counter — synchronously, before the task can suspend —
//! then requests the lock; once the lock is granted the payload is
//! constructed if absent, and the task works through a [`Guard`]. Releasing
//! the guard destroys the payload if it carried the last reference, then
//! decrements the counter, then releases the lock. Because the counter is
//! bumped first and undone exactly once on every exit path, cancelling an
//! acquisition while it waits for the lock leaves the resource exactly as if
//! the acquisition had never been attempted.

use vstd::prelude::*;

use crate::lock::AcquireStep;
use crate::lock::FairLock;
use crate::lock::LockCancel;
use crate::lock::LockModel;
use crate::waiters::lemma_without_absent_token;
use crate::waiters::lemma_without_registered_token;
use crate::waiters::without_token;

verus! {

/// The electrical level of an output pin.
#[derive(Clone, Copy, Debug, PartialEq, Eq, Structural)]
pub enum Level {
    Low,
    High,
}

/// The drive speed of an output pin.
#[derive(Clone, Copy, Debug, PartialEq, Eq, Structural)]
pub enum Speed {
    Low,
    Medium,
    High,
    VeryHigh,
}

/// The construction parameters captured when the resource is created: which
/// pin to drive and its initial settings. Used only to build the payload on
/// first use.
#[derive(Clone, Copy, Debug, PartialEq, Eq, Structural)]
pub struct OutputConfig {
    pub pin: u8,
    pub level: Level,
    pub speed: Speed,
}

/// The payload: a configured output pin. Constructed from an
/// [`OutputConfig`] and torn down by being dropped.
#[derive(Clone, Copy, Debug, PartialEq, Eq, Structural)]
pub struct OutputResource {
    pub pin: u8,
    pub level: Level,
    pub speed: Speed,
}

/// The payload a construction from `config` yields.
pub open spec fn constructed_from(config: OutputConfig) -> OutputResource {
    OutputResource { pin: config.pin, level: config.level, speed: config.speed }
}

/// The payload after one toggle: the level flipped, the rest kept.
pub open spec fn toggled(r: OutputResource) -> OutputResource {
    OutputResource {
        pin: r.pin,
        level: if r.level == Level::Low {
            Level::High
        } else {
            Level::Low
        },
        speed: r.speed,
    }
}

impl OutputResource {
    /// Configures the output described by `config`.
    pub fn construct(config: OutputConfig) -> (r: Self)
        ensures
            r == constructed_from(config),
    {
        OutputResource { pin: config.pin, level: config.level, speed: config.speed }
    }

    /// Flips the output level.
    pub fn toggle(&mut self)
        ensures
            *final(self) == toggled(*old(self)),
    {
        self.level = match self.level {
            Level::Low => Level::High,
            Level::High => Level::Low,
        };
    }
}

/// A scoped handle for one granted acquisition: it stands for ownership of
/// the lock and for one unit of the reference count. Releasing it hands both
/// back. It cannot be copied, so each acquisition yields exactly one.
#[derive(Debug)]
pub struct Guard {
    token: u64,
}

impl View for Guard {
    type V = u64;

    closed spec fn view(&self) -> u64 {
        self.token
    }
}

impl Guard {
    /// The wake token of the task that owns this guard.
    pub fn token(&self) -> (r: u64)
        ensures
            r == self@,
    {
        self.token
    }
}

/// What cancelling an acquisition found.
#[derive(Debug)]
pub enum CancelOutcome {
    /// The token was still queued: it was removed and the reference count
    /// decremented, as if the acquisition had never been attempted.
    Dequeued,
    /// The lock had already been granted to the token, so the abandoned
    /// grant was released at once: the payload was destroyed if this was the
    /// last reference, the count decremented, and ownership passed to the
    /// queue head carried inside, if any.
    Released(Option<u64>),
}

/// The mathematical content of the resource.
#[verifier::ext_equal]
pub ghost struct ResourceModel {
    /// The construction parameters, fixed at creation.
    pub config: OutputConfig,
    /// The payload, absent until first use.
    pub payload: Option<OutputResource>,
    /// How many acquisitions are outstanding: started and not yet resolved.
    pub count: nat,
    /// The lock that serializes payload construction, use and destruction.
    pub lock: LockModel,
}

impl ResourceModel {
    /// How many tasks are between "started acquiring" and "released": the
    /// queued waiters plus the holder, if any.
    pub open spec fn outstanding(self) -> nat {
        self.lock.queue.len() + (if self.lock.holder is Some {
            1nat
        } else {
            0nat
        })
    }

    /// The resource invariant: the lock is well formed, the reference count
    /// equals the outstanding acquisitions, the payload exists only while
    /// some task holds the lock, and the payload always matches the
    /// construction parameters (only its level may have been toggled).
    pub open spec fn wf(self) -> bool {
        &&& self.lock.wf()
        &&& self.count == self.outstanding()
        &&& (self.payload is Some ==> self.lock.holder is Some)
        &&& (self.payload is Some ==> self.payload->0.pin == self.config.pin
            && self.payload->0.speed == self.config.speed)
    }

    /// Whether the token is the holder or a queued waiter.
    pub open spec fn involves(self, t: u64) -> bool {
        self.lock.involves(t)
    }

    /// The model after an acquisition by `t` began: the count is up by one
    /// and the lock was requested.
    pub open spec fn after_begin(self, t: u64) -> ResourceModel {
        ResourceModel {
            config: self.config,
            payload: self.payload,
            count: self.count + 1,
            lock: self.lock.after_acquire(t),
        }
    }

    /// Whether completing an acquisition now would construct the payload.
    pub open spec fn completing_constructs(self) -> bool {
        self.payload is None
    }

    /// The model after the holder completed its acquisition: the payload is
    /// present, constructed from the configuration if it was absent.
    pub open spec fn after_complete(self) -> ResourceModel {
        ResourceModel {
            config: self.config,
            payload: if self.payload is Some {
                self.payload
            } else {
                Some(constructed_from(self.config))
            },
            count: self.count,
            lock: self.lock,
        }
    }

    /// The model after the holder toggled the output.
    pub open spec fn after_toggle(self) -> ResourceModel {
        ResourceModel {
            config: self.config,
            payload: Some(toggled(self.payload->0)),
            count: self.count,
            lock: self.lock,
        }
    }

    /// Whether a release now would destroy the payload: exactly when the
    /// releasing task carries the last outstanding reference.
    pub open spec fn releasing_destroys(self) -> bool {
        self.count == 1
    }

    /// The model after the holder released: the payload is destroyed if this
    /// was the last reference, the count goes down by one, and the lock
    /// passes to the queue head or becomes free.
    pub open spec fn after_release(self) -> ResourceModel {
        ResourceModel {
            config: self.config,
            payload: if self.count == 1 {
                None
            } else {
                self.payload
            },
            count: (self.count - 1) as nat,
            lock: self.lock.after_release(),
        }
    }

    /// The model after a still-queued acquisition by `t` was cancelled: the
    /// token leaves the queue and the count goes down by one.
    pub open spec fn after_cancel(self, t: u64) -> ResourceModel {
        ResourceModel {
            config: self.config,
            payload: self.payload,
            count: (self.count - 1) as nat,
            lock: self.lock.after_cancel(t),
        }
    }
}

/// An on-demand resource: created once, it constructs its payload on first
/// acquisition and destroys it when the last reference goes away, over and
/// over as demand comes and goes.
pub struct OnDemandResource {
    config: OutputConfig,
    payload: Option<OutputResource>,
    reference_count: u64,
    lock: FairLock,
}

impl View for OnDemandResource {
    type V = ResourceModel;

    closed spec fn view(&self) -> ResourceModel {
        ResourceModel {
            config: self.config,
            payload: self.payload,
            count: self.reference_count as nat,
            lock: self.lock@,
        }
    }
}

impl OnDemandResource {
    /// A fresh resource: payload absent, no references, lock free.
    pub fn new(config: OutputConfig) -> (r: Self)
        ensures
            r@.wf(),
            r@.config == config,
            r@.payload is None,
            r@.count == 0,
            r@.lock.holder is None,
            r@.lock.queue.len() == 0,
    {
        OnDemandResource {
            config,
            payload: None,
            reference_count: 0,
            lock: FairLock::new(),
        }
    }

    /// The number of outstanding acquisitions.
    pub fn reference_count(&self) -> (r: u64)
        ensures
            r == self@.count,
    {
        self.reference_count
    }

    /// Whether the payload currently exists.
    pub fn payload_present(&self) -> (r: bool)
        ensures
            r == (self@.payload is Some),
    {
        match self.payload {
            Some(_) => true,
            None => false,
        }
    }

    /// The current output level, while the payload exists.
    pub fn output_level(&self) -> (r: Level)
        requires
            self@.payload is Some,
        ensures
            r == self@.payload->0.level,
    {
        match &self.payload {
            Some(out) => out.level,
            None => Level::Low,
        }
    }

    /// Starts an acquisition for the task with wake token `token`. The
    /// reference count goes up by one before anything else — that early,
    /// unconditional bump is what makes the operation safe to cancel. Then
    /// the lock is requested: on `Granted` the caller proceeds to
    /// [`Self::complete_acquire`]; on `Queued` it suspends until a release
    /// grants it ownership, after which it completes, or until it is
    /// cancelled, in which case it calls [`Self::cancel_acquire`].
    pub fn begin_acquire(&mut self, token: u64) -> (r: AcquireStep)
        requires
            old(self)@.wf(),
            !old(self)@.involves(token),
            old(self)@.count < u64::MAX,
        ensures
            final(self)@.wf(),
            final(self)@ == old(self)@.after_begin(token),
            final(self)@.involves(token),
            (r == AcquireStep::Granted) <==> old(self)@.lock.holder is None,
            r == AcquireStep::Granted ==> final(self)@.lock.holder == Some(token),
            r == AcquireStep::Queued ==> final(self)@.lock.queue.contains(token),
    {
        self.reference_count = self.reference_count + 1;
        self.lock.acquire(token)
    }

    /// Finishes an acquisition once the lock belongs to `token`: constructs
    /// the payload from the configuration if it is absent — at most once per
    /// empty-to-present cycle, since it exists from here until destroyed —
    /// and returns the guard that stands for this reference.
    pub fn complete_acquire(&mut self, token: u64) -> (guard: Guard)
        requires
            old(self)@.wf(),
            old(self)@.lock.holder == Some(token),
        ensures
            final(self)@.wf(),
            final(self)@ == old(self)@.after_complete(),
            final(self)@.payload is Some,
            guard@ == token,
    {
        let absent = match &self.payload {
            Some(_) => false,
            None => true,
        };
        if absent {
            self.payload = Some(OutputResource::construct(self.config));
        }
        Guard { token }
    }

    /// Flips the level of the output through the guard that owns it.
    pub fn toggle(&mut self, guard: &Guard)
        requires
            old(self)@.wf(),
            old(self)@.lock.holder == Some(guard@),
            old(self)@.payload is Some,
        ensures
            final(self)@.wf(),
            final(self)@ == old(self)@.after_toggle(),
    {
        match &mut self.payload {
            Some(out) => out.toggle(),
            None => {},
        }
    }

    /// Releases a guard. While still holding the lock, the payload is
    /// destroyed if this guard carried the last outstanding reference — so
    /// no task can ever observe a zero count with the payload still present;
    /// then the count goes down by one; then the lock passes to the head
    /// waiter, whose token is returned so the runtime can resume it.
    pub fn release(&mut self, guard: Guard) -> (woken: Option<u64>)
        requires
            old(self)@.wf(),
            old(self)@.lock.holder == Some(guard@),
        ensures
            final(self)@.wf(),
            final(self)@ == old(self)@.after_release(),
            woken == final(self)@.lock.holder,
            old(self)@.releasing_destroys() ==> final(self)@.payload is None
                && final(self)@.count == 0,
            !old(self)@.releasing_destroys() ==> final(self)@.payload == old(self)@.payload,
    {
        if self.reference_count == 1 {
            self.payload = None;
        }
        self.reference_count = self.reference_count - 1;
        self.lock.release()
    }

    /// Withdraws an acquisition whose wait was cancelled, for instance by a
    /// timeout. If the token is still queued it is removed and the count
    /// decremented: the resource is left exactly as if the acquisition had
    /// never been attempted. If the lock had already been granted to the
    /// token, the abandoned grant is released on the spot, by the same rule
    /// as a guard release.
    pub fn cancel_acquire(&mut self, token: u64) -> (r: CancelOutcome)
        requires
            old(self)@.wf(),
            old(self)@.involves(token),
        ensures
            final(self)@.wf(),
            (r is Dequeued) <==> old(self)@.lock.queue.contains(token),
            r is Dequeued ==> final(self)@ == old(self)@.after_cancel(token),
            (r is Released) <==> old(self)@.lock.holder == Some(token),
            r is Released ==> final(self)@ == old(self)@.after_release()
                && r == CancelOutcome::Released(final(self)@.lock.holder),
    {
        match self.lock.cancel(token) {
            LockCancel::Granted => {
                if self.reference_count == 1 {
                    self.payload = None;
                }
                self.reference_count = self.reference_count - 1;
                let woken = self.lock.release();
                CancelOutcome::Released(woken)
            },
            LockCancel::Dequeued => {
                proof {
                    lemma_cancel_queue_shrinks(old(self)@.lock, token);
                }
                self.reference_count = self.reference_count - 1;
                CancelOutcome::Dequeued
            },
        }
    }
}

/// Cancelling a queued token shortens the queue by exactly one entry.
proof fn lemma_cancel_queue_shrinks(l: LockModel, t: u64)
    requires
        l.wf(),
        l.queue.contains(t),
    ensures
        l.after_cancel(t).queue.len() == l.queue.len() - 1,
{
    let i = choose|i: int| 0 <= i < l.queue.len() && l.queue[i] == t;
    lemma_distinct_without_token(l.queue, t, i);
}

/// In a queue of distinct tokens, removing one present token removes exactly
/// its single occurrence.
proof fn lemma_distinct_without_token(q: Seq<u64>, t: u64, i: int)
    requires
        forall|a: int, b: int| 0 <= a < b < q.len() ==> q[a] != q[b],
        0 <= i < q.len(),
        q[i] == t,
    ensures
        without_token(q, t).len() == q.len() - 1,
    decreases q.len(),
{
    let head = q.drop_last();
    if i == q.len() - 1 {
        assert(forall|k: int| 0 <= k < head.len() ==> head[k] != t);
        assert(!head.contains(t));
        lemma_without_absent_token(head, t);
    } else {
        assert(forall|a: int, b: int| 0 <= a < b < head.len() ==> head[a] != head[b]);
        lemma_distinct_without_token(head, t, i);
        assert(q.last() != t);
    }
}

/// The reference count never drifts: whenever the resource is well formed it
/// equals the number of outstanding acquisitions — the queued waiters plus
/// the holder — and, being a count of that multitude, can never go negative.
pub proof fn lemma_reference_count_tracks_outstanding(r: ResourceModel)
    requires
        r.wf(),
    ensures
        r.count == r.outstanding(),
{
}

/// The payload is constructed at most once per empty-to-present cycle: right
/// after any completed acquisition it is present, so completing the next
/// acquisition — by whichever task the lock passes to — constructs nothing.
pub proof fn lemma_payload_constructed_once_per_cycle(r: ResourceModel)
    requires
        r.wf(),
        r.lock.holder is Some,
    ensures
        r.after_complete().payload is Some,
        !r.after_complete().completing_constructs(),
        !r.after_complete().after_complete().completing_constructs(),
{
}

/// The payload outlives every reference but the last: a release that is not
/// the last keeps the payload, and hands the lock to a waiter who will find
/// it present; only the release of the last outstanding reference destroys
/// it, and by then the count is zero.
pub proof fn lemma_payload_kept_while_referenced(r: ResourceModel)
    requires
        r.wf(),
        r.lock.holder is Some,
        r.count > 1,
    ensures
        r.after_release().payload == r.payload,
        r.after_release().lock.holder is Some,
{
}

/// Destruction happens only on the release that takes the count to zero,
/// never while other acquisitions are outstanding.
pub proof fn lemma_destruction_only_at_zero(r: ResourceModel)
    requires
        r.wf(),
        r.lock.holder is Some,
        r.releasing_destroys(),
    ensures
        r.after_release().payload is None,
        r.after_release().count == 0,
{
}

/// Cancellation safety: beginning an acquisition while the lock is held and
/// then cancelling it before it is granted restores the resource exactly —
/// same payload, same count, same holder, same queue, with no dangling
/// entry.
pub proof fn lemma_cancel_restores_resource(r: ResourceModel, t: u64)
    requires
        r.wf(),
        !r.involves(t),
        r.lock.holder is Some,
        r.count < u64::MAX,
    ensures
        r.after_begin(t).after_cancel(t) == r,
{
    lemma_without_registered_token(r.lock.queue, t);
    assert(r.after_begin(t).after_cancel(t).lock =~= r.lock);
    assert(r.after_begin(t).after_cancel(t) =~= r);
}

} // verus!
