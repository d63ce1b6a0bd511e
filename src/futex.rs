//! The futex engine's decisions: whether a waiter may sleep, how its wait
//! resolves, which queued threads a wake releases, and which requeue shapes
//! are carried out.
use vstd::prelude::*;
use crate::context::{Context, NOT_PARKED};
use crate::error::SyscallError;
use crate::park::{ParkOutcome, UnparkCounts, WakeToken};
use crate::pi::{lock_pi_next, LockPiAction, LockPiEvent};

verus! {

/// `requeue_count` that asks for every remaining waiter to be moved.
pub const REQUEUE_ALL: u32 = 0x7fff_ffff;

/// The check made under the queue lock before a waiter sleeps: it sleeps
/// only while the word still holds the value it expects.
pub fn wait_validate(current: u32, expected: u32) -> (r: bool)
    ensures
        r == (current == expected),
{
    current == expected
}

/// What a wait returns for a given park outcome.
pub open spec fn wait_result(outcome: ParkOutcome) -> Result<(), SyscallError> {
    match outcome {
        ParkOutcome::Invalid => Err(SyscallError::Again),
        ParkOutcome::Unparked(WakeToken::Normal) => Ok(()),
        ParkOutcome::Unparked(WakeToken::HostAbort) => Err(SyscallError::HostAbort),
    }
}

/// Ends a wait: clears `park_addr` on every path and maps the outcome to a
/// result. A changed word gives `Again`; a normal wake, success; a host
/// abort, `HostAbort`, which is never shown to the guest.
pub fn finish_wait(ctx: &mut Context, outcome: ParkOutcome) -> (r: Result<(), SyscallError>)
    ensures
        r == wait_result(outcome),
        *final(ctx) == old(ctx).parked_at(NOT_PARKED),
{
    ctx.end_park();
    match outcome {
        ParkOutcome::Invalid => Err(SyscallError::Again),
        ParkOutcome::Unparked(WakeToken::Normal) => Ok(()),
        ParkOutcome::Unparked(WakeToken::HostAbort) => Err(SyscallError::HostAbort),
    }
}

/// Whether a queued thread is woken, or the scan of the queue stops.
#[derive(Clone, Copy, Debug, PartialEq, Eq, Structural)]
pub enum FilterDecision {
    Unpark,
    Stop,
}

/// The filter that a wake runs over the queue, front first: it wakes
/// threads until `limit` of them are woken, then stops.
#[derive(Clone, Copy, Debug, PartialEq, Eq, Structural)]
pub struct WakeFilter {
    /// Threads woken so far.
    pub woken: u32,
    /// The most threads this wake may release.
    pub limit: u32,
}

impl WakeFilter {
    pub open spec fn spec_new(limit: u32) -> WakeFilter {
        WakeFilter { woken: 0, limit }
    }

    /// The decision for the next queued thread, and the filter after it.
    pub open spec fn spec_next(self) -> (FilterDecision, WakeFilter) {
        if self.woken < self.limit {
            (FilterDecision::Unpark, WakeFilter { woken: (self.woken + 1) as u32, ..self })
        } else {
            (FilterDecision::Stop, self)
        }
    }

    pub fn new(limit: u32) -> (r: WakeFilter)
        ensures
            r == WakeFilter::spec_new(limit),
    {
        WakeFilter { woken: 0, limit }
    }

    /// Decides for the next queued thread.
    pub fn next(&mut self) -> (d: FilterDecision)
        ensures
            (d, *final(self)) == old(self).spec_next(),
    {
        if self.woken < self.limit {
            self.woken = self.woken + 1;
            FilterDecision::Unpark
        } else {
            FilterDecision::Stop
        }
    }
}

/// The filter after it has decided for `k` queued threads.
pub open spec fn run_filter(f: WakeFilter, k: nat) -> WakeFilter
    decreases k,
{
    if k == 0 {
        f
    } else {
        run_filter(f, (k - 1) as nat).spec_next().1
    }
}

/// A wake with `limit` credits, scanning its queue front first, wakes the
/// thread at position `k` exactly when `k < limit`; after `k` threads the
/// filter has woken `min(k, limit)`. Each thread woken this way receives the
/// normal token and its wait returns success, so the number of successful
/// waits equals the number of credits delivered, never more.
pub proof fn lemma_wake_credits(limit: u32, k: nat)
    ensures
        run_filter(WakeFilter::spec_new(limit), k).limit == limit,
        run_filter(WakeFilter::spec_new(limit), k).woken == if k < limit { k } else { limit as nat },
        run_filter(WakeFilter::spec_new(limit), k).spec_next().0 == FilterDecision::Unpark <==> k < limit,
        wait_result(ParkOutcome::Unparked(WakeToken::Normal)) == Ok::<(), SyscallError>(()),
    decreases k,
{
    if k > 0 {
        lemma_wake_credits(limit, (k - 1) as nat);
    }
}

/// A wake with no credits stops at the first queued thread: whatever the
/// queue holds, no thread is woken.
pub proof fn lemma_wake_zero_wakes_none(k: nat)
    ensures
        WakeFilter::spec_new(0).spec_next().0 == FilterDecision::Stop,
        run_filter(WakeFilter::spec_new(0), k).woken == 0,
{
    lemma_wake_credits(0, k);
}

/// When the host aborts, every parked thread, whatever address it is parked
/// on and whether it waits on a word or contends for a mutex, resolves to
/// `HostAbort` with `park_addr` cleared; none resolves to success, and a
/// contender takes no ownership.
pub proof fn lemma_host_abort_abandons(parked: Seq<Context>)
    ensures
        wait_result(ParkOutcome::Unparked(WakeToken::HostAbort)) == Err::<(), SyscallError>(SyscallError::HostAbort),
        forall|i: int| 0 <= i < parked.len() ==> (#[trigger] parked[i]).parked_at(NOT_PARKED).park_addr == NOT_PARKED,
        forall|i: int| 0 <= i < parked.len() ==>
            lock_pi_next(#[trigger] parked[i], LockPiEvent::Parked(ParkOutcome::Unparked(WakeToken::HostAbort)))
                == (parked[i].parked_at(NOT_PARKED), LockPiAction::Finish(Err(SyscallError::HostAbort))),
{
}

/// The requeue shapes that are carried out.
#[derive(Clone, Copy, Debug, PartialEq, Eq, Structural)]
pub enum RequeueShape {
    /// Wake none, move the first waiter.
    RequeueOne,
    /// Wake none, move every waiter.
    RequeueAll,
    /// Wake the first waiter, move none.
    WakeOne,
    /// Wake the first waiter, move the rest.
    WakeOneRequeueRest,
}

/// The plan for a requeue with these counts: `Ok(None)` for nothing to do,
/// `Ok(Some(shape))` for a supported shape, `Invalid` otherwise.
pub open spec fn requeue_plan_of(wake_count: u32, requeue_count: u32) -> Result<Option<RequeueShape>, SyscallError> {
    if wake_count == 0 && requeue_count == 0 {
        Ok(None)
    } else if wake_count == 0 && requeue_count == 1 {
        Ok(Some(RequeueShape::RequeueOne))
    } else if wake_count == 0 && requeue_count == REQUEUE_ALL {
        Ok(Some(RequeueShape::RequeueAll))
    } else if wake_count == 1 && requeue_count == 0 {
        Ok(Some(RequeueShape::WakeOne))
    } else if wake_count == 1 && requeue_count == REQUEUE_ALL {
        Ok(Some(RequeueShape::WakeOneRequeueRest))
    } else {
        Err(SyscallError::Invalid)
    }
}

/// Chooses the requeue shape for a pair of counts. Only the shapes that a
/// threading runtime needs are supported; any other pair is rejected, and
/// the caller then touches no queue.
pub fn requeue_plan(wake_count: u32, requeue_count: u32) -> (r: Result<Option<RequeueShape>, SyscallError>)
    ensures
        r == requeue_plan_of(wake_count, requeue_count),
        (wake_count == 0 && requeue_count == 0) ==> r == Ok::<Option<RequeueShape>, SyscallError>(None),
        r is Err ==> r == Err::<Option<RequeueShape>, SyscallError>(SyscallError::Invalid),
{
    if wake_count == 0 && requeue_count == 0 {
        Ok(None)
    } else if wake_count == 0 && requeue_count == 1 {
        Ok(Some(RequeueShape::RequeueOne))
    } else if wake_count == 0 && requeue_count == REQUEUE_ALL {
        Ok(Some(RequeueShape::RequeueAll))
    } else if wake_count == 1 && requeue_count == 0 {
        Ok(Some(RequeueShape::WakeOne))
    } else if wake_count == 1 && requeue_count == REQUEUE_ALL {
        Ok(Some(RequeueShape::WakeOneRequeueRest))
    } else {
        Err(SyscallError::Invalid)
    }
}

/// The count a requeue returns: threads woken plus threads moved.
pub fn requeue_total(counts: UnparkCounts) -> (r: usize)
    requires
        counts.unparked + counts.requeued <= usize::MAX,
    ensures
        r == counts.unparked + counts.requeued,
{
    counts.unparked + counts.requeued
}

} // verus!
