//! The priority-inheriting mutex: the decisions of `lock_pi` as a state
//! machine, and the word update of `unlock_pi`.
//!
//! No priority is tracked, and an unlock always hands the mutex to the
//! longest-waiting thread.
use vstd::prelude::*;
use crate::context::{Context, NOT_PARKED};
use crate::error::SyscallError;
use crate::park::{ParkOutcome, UnparkCounts, WakeToken};
use crate::word::{FUTEX_WAITERS, has_waiters, owner_of};

verus! {

/// What the host reports back to the lock machine.
#[derive(Clone, Copy, Debug, PartialEq, Eq)]
pub enum LockPiEvent {
    /// The call has just begun.
    Start,
    /// The outcome of the compare-and-swap of the word from 0 to the
    /// caller's id: `Ok` with the old value when it swapped, `Err` with the
    /// value found when it did not.
    Swapped(Result<u32, u32>),
    /// How the park ended.
    Parked(ParkOutcome),
    /// The woken thread has written its claim into the word.
    Claimed,
}

/// What the host must do next for the lock machine.
#[derive(Clone, Copy, Debug, PartialEq, Eq)]
pub enum LockPiAction {
    /// Compare-and-swap the word from 0 to `tid`, then report `Swapped`.
    TrySwap { tid: u32 },
    /// Park on the address; under the queue lock, validate by swapping the
    /// word from `owner` to `marked`. Report `Parked`.
    ParkIfOwner { owner: u32, marked: u32 },
    /// Load the word, store `claim_word` of it with `tid`, report `Claimed`.
    Claim { tid: u32 },
    /// Return this from the call.
    Finish(Result<(), SyscallError>),
}

/// One transition of the lock machine: the caller's state after the event,
/// and what to do next.
pub open spec fn lock_pi_next(ctx: Context, event: LockPiEvent) -> (Context, LockPiAction) {
    match event {
        LockPiEvent::Start => (ctx, LockPiAction::TrySwap { tid: ctx.tid }),
        LockPiEvent::Swapped(Ok(_)) => (ctx.parked_at(NOT_PARKED), LockPiAction::Finish(Ok(()))),
        LockPiEvent::Swapped(Err(owner)) => if owner == 0 {
            (ctx, LockPiAction::TrySwap { tid: ctx.tid })
        } else {
            (ctx, LockPiAction::ParkIfOwner { owner, marked: owner | FUTEX_WAITERS })
        },
        LockPiEvent::Parked(ParkOutcome::Invalid) => (ctx, LockPiAction::TrySwap { tid: ctx.tid }),
        LockPiEvent::Parked(ParkOutcome::Unparked(WakeToken::Normal)) =>
            (ctx.parked_at(NOT_PARKED), LockPiAction::Claim { tid: ctx.tid }),
        LockPiEvent::Parked(ParkOutcome::Unparked(WakeToken::HostAbort)) =>
            (ctx.parked_at(NOT_PARKED), LockPiAction::Finish(Err(SyscallError::HostAbort))),
        LockPiEvent::Claimed => (ctx.parked_at(NOT_PARKED), LockPiAction::Finish(Ok(()))),
    }
}

/// Advances `lock_pi` for the calling thread.
///
/// The call starts with `Start`: the thread tries to take the free word.
/// When the word is held, it marks the waiters bit on the exact value it saw
/// and parks; a failed validation starts over. A normal wake hands it the
/// mutex, which it claims; a host abort ends the call without ownership.
/// `park_addr` is cleared whenever the call finishes.
pub fn lock_pi_step(ctx: &mut Context, event: LockPiEvent) -> (r: LockPiAction)
    ensures
        (*final(ctx), r) == lock_pi_next(*old(ctx), event),
        r is Finish ==> final(ctx).park_addr == NOT_PARKED,
        r == LockPiAction::Finish(Ok(())) ==> (event is Claimed || event matches LockPiEvent::Swapped(Ok(_))),
        final(ctx).tid == old(ctx).tid,
{
    match event {
        LockPiEvent::Start => LockPiAction::TrySwap { tid: ctx.tid },
        LockPiEvent::Swapped(Ok(_)) => {
            ctx.end_park();
            LockPiAction::Finish(Ok(()))
        },
        LockPiEvent::Swapped(Err(owner)) => {
            if owner == 0 {
                LockPiAction::TrySwap { tid: ctx.tid }
            } else {
                LockPiAction::ParkIfOwner { owner, marked: owner | FUTEX_WAITERS }
            }
        },
        LockPiEvent::Parked(ParkOutcome::Invalid) => LockPiAction::TrySwap { tid: ctx.tid },
        LockPiEvent::Parked(ParkOutcome::Unparked(WakeToken::Normal)) => {
            ctx.end_park();
            LockPiAction::Claim { tid: ctx.tid }
        },
        LockPiEvent::Parked(ParkOutcome::Unparked(WakeToken::HostAbort)) => {
            ctx.end_park();
            LockPiAction::Finish(Err(SyscallError::HostAbort))
        },
        LockPiEvent::Claimed => {
            ctx.end_park();
            LockPiAction::Finish(Ok(()))
        },
    }
}

/// How `unlock_pi` changes the word, decided while the queue is locked.
#[derive(Clone, Copy, Debug, PartialEq, Eq, Structural)]
pub enum UnlockUpdate {
    /// No thread was queued: store 0.
    Release,
    /// The last queued thread was woken: clear the waiters bit atomically.
    DropWaiters,
    /// Threads remain queued: leave the word as it is.
    Keep,
}

impl UnlockUpdate {
    /// The word after the update is applied to `w`.
    pub open spec fn apply(self, w: u32) -> u32 {
        match self {
            UnlockUpdate::Release => 0,
            UnlockUpdate::DropWaiters => w & !FUTEX_WAITERS,
            UnlockUpdate::Keep => w,
        }
    }
}

pub open spec fn unlock_update_of(counts: UnparkCounts) -> UnlockUpdate {
    if counts.unparked == 0 {
        UnlockUpdate::Release
    } else if !counts.have_more {
        UnlockUpdate::DropWaiters
    } else {
        UnlockUpdate::Keep
    }
}

/// Decides the word update of `unlock_pi` from what waking one thread
/// reported.
pub fn unlock_pi_update(counts: UnparkCounts) -> (r: UnlockUpdate)
    ensures
        r == unlock_update_of(counts),
        r is Release <==> counts.unparked == 0,
        r is DropWaiters <==> (counts.unparked > 0 && !counts.have_more),
        r is Keep <==> (counts.unparked > 0 && counts.have_more),
{
    if counts.unparked == 0 {
        UnlockUpdate::Release
    } else if !counts.have_more {
        UnlockUpdate::DropWaiters
    } else {
        UnlockUpdate::Keep
    }
}

/// When `unlock_pi` finds no queued thread the word becomes 0, whatever it
/// held; when it wakes the last queued thread the waiters bit is cleared and
/// the rest of the word is kept; while threads remain queued the word is
/// left alone.
pub proof fn lemma_unlock_pi_word(w: u32, counts: UnparkCounts)
    ensures
        counts.unparked == 0 ==> unlock_update_of(counts).apply(w) == 0,
        (counts.unparked > 0 && !counts.have_more) ==> {
            &&& !has_waiters(unlock_update_of(counts).apply(w))
            &&& owner_of(unlock_update_of(counts).apply(w)) == owner_of(w)
        },
        (counts.unparked > 0 && counts.have_more) ==> unlock_update_of(counts).apply(w) == w,
{
    let d = w & !FUTEX_WAITERS;
    assert(!has_waiters(d) && owner_of(d) == owner_of(w)) by (bit_vector)
        requires
            d == w & !0x8000_0000u32,
    ;
}

/// An uncontended lock followed by an unlock that finds no queued thread
/// leaves the word free: the lock installs the caller's id with no waiters
/// bit and finishes at once, and the unlock stores 0.
pub proof fn lemma_uncontended_round_trip(ctx: Context, counts: UnparkCounts)
    requires
        counts.unparked == 0,
    ensures
        lock_pi_next(ctx, LockPiEvent::Start).1 == (LockPiAction::TrySwap { tid: ctx.tid }),
        lock_pi_next(ctx, LockPiEvent::Swapped(Ok(0))).1 == LockPiAction::Finish(Ok(())),
        unlock_update_of(counts).apply(ctx.tid) == 0,
{
}

} // verus!
