use waterboxhost::context::{Context, NOT_PARKED};
use waterboxhost::error::SyscallError;
use waterboxhost::park::{ParkOutcome, UnparkCounts, WakeToken};
use waterboxhost::pi::{lock_pi_step, unlock_pi_update, LockPiAction, LockPiEvent, UnlockUpdate};
use waterboxhost::word::{claim_word, waiters_word, FUTEX_OWNER_DIED, FUTEX_TID_MASK, FUTEX_WAITERS};

fn apply(update: UnlockUpdate, w: u32) -> u32 {
    match update {
        UnlockUpdate::Release => 0,
        UnlockUpdate::DropWaiters => w & !FUTEX_WAITERS,
        UnlockUpdate::Keep => w,
    }
}

#[test]
fn uncontended_lock_then_unlock_frees_word() {
    let mut ctx = Context::new(7, 0, 0, 0);
    let mut word: u32 = 0;
    assert_eq!(lock_pi_step(&mut ctx, LockPiEvent::Start), LockPiAction::TrySwap { tid: 7 });
    let swapped = if word == 0 { word = 7; Ok(0) } else { Err(word) };
    assert_eq!(lock_pi_step(&mut ctx, LockPiEvent::Swapped(swapped)), LockPiAction::Finish(Ok(())));
    assert_eq!(word, 7);
    let counts = UnparkCounts { unparked: 0, requeued: 0, have_more: false };
    word = apply(unlock_pi_update(counts), word);
    assert_eq!(word, 0);
}

#[test]
fn contended_lock_parks_with_waiters_bit() {
    let mut ctx = Context::new(9, 0, 0, 0);
    let action = lock_pi_step(&mut ctx, LockPiEvent::Swapped(Err(3)));
    assert_eq!(action, LockPiAction::ParkIfOwner { owner: 3, marked: 3 | FUTEX_WAITERS });
    assert_eq!(ctx.park_addr, NOT_PARKED);
}

#[test]
fn second_swap_on_held_word_fails() {
    // Two contenders: only the first compare-and-swap from 0 succeeds.
    let mut word: u32 = 0;
    let mut try_swap = |tid: u32| if word == 0 { word = tid; Ok(0) } else { Err(word) };
    let mut a = Context::new(1, 0, 0, 0);
    let mut b = Context::new(2, 0, 0, 0);
    let ra = try_swap(1);
    let rb = try_swap(2);
    assert_eq!(lock_pi_step(&mut a, LockPiEvent::Swapped(ra)), LockPiAction::Finish(Ok(())));
    assert_eq!(
        lock_pi_step(&mut b, LockPiEvent::Swapped(rb)),
        LockPiAction::ParkIfOwner { owner: 1, marked: 1 | FUTEX_WAITERS }
    );
}

#[test]
fn spurious_zero_retries_the_swap() {
    let mut ctx = Context::new(5, 0, 0, 0);
    assert_eq!(lock_pi_step(&mut ctx, LockPiEvent::Swapped(Err(0))), LockPiAction::TrySwap { tid: 5 });
}

#[test]
fn failed_validation_retries() {
    let mut ctx = Context::new(5, 0, 0, 0);
    assert_eq!(
        lock_pi_step(&mut ctx, LockPiEvent::Parked(ParkOutcome::Invalid)),
        LockPiAction::TrySwap { tid: 5 }
    );
}

#[test]
fn woken_contender_claims_then_finishes() {
    let mut ctx = Context::new(5, 0, 0, 0);
    ctx.begin_park(0x4000);
    assert_eq!(
        lock_pi_step(&mut ctx, LockPiEvent::Parked(ParkOutcome::Unparked(WakeToken::Normal))),
        LockPiAction::Claim { tid: 5 }
    );
    assert_eq!(ctx.park_addr, NOT_PARKED);
    assert_eq!(lock_pi_step(&mut ctx, LockPiEvent::Claimed), LockPiAction::Finish(Ok(())));
}

#[test]
fn aborted_contender_is_abandoned() {
    let mut ctx = Context::new(5, 0, 0, 0);
    ctx.begin_park(0x4000);
    assert_eq!(
        lock_pi_step(&mut ctx, LockPiEvent::Parked(ParkOutcome::Unparked(WakeToken::HostAbort))),
        LockPiAction::Finish(Err(SyscallError::HostAbort))
    );
    assert_eq!(ctx.park_addr, NOT_PARKED);
}

#[test]
fn unlock_updates() {
    let none = UnparkCounts { unparked: 0, requeued: 0, have_more: false };
    let last = UnparkCounts { unparked: 1, requeued: 0, have_more: false };
    let more = UnparkCounts { unparked: 1, requeued: 0, have_more: true };
    assert_eq!(unlock_pi_update(none), UnlockUpdate::Release);
    assert_eq!(unlock_pi_update(last), UnlockUpdate::DropWaiters);
    assert_eq!(unlock_pi_update(more), UnlockUpdate::Keep);
    assert_eq!(apply(unlock_pi_update(last), 3 | FUTEX_WAITERS), 3);
    assert_eq!(apply(unlock_pi_update(more), 3 | FUTEX_WAITERS), 3 | FUTEX_WAITERS);
}

#[test]
fn handoff_to_last_waiter() {
    // Owner 3 with a waiter; unlock wakes the last waiter (tid 8), which claims.
    let word = 3 | FUTEX_WAITERS;
    let last = UnparkCounts { unparked: 1, requeued: 0, have_more: false };
    let after_unlock = apply(unlock_pi_update(last), word);
    assert_eq!(claim_word(after_unlock, 8), 8);
}

#[test]
fn claim_keeps_high_bits() {
    assert_eq!(claim_word(FUTEX_WAITERS | 3, 8), FUTEX_WAITERS | 8);
    assert_eq!(claim_word(FUTEX_OWNER_DIED | 0x1234, 1), FUTEX_OWNER_DIED | 1);
    assert_eq!(claim_word(0, FUTEX_TID_MASK), FUTEX_TID_MASK);
}

#[test]
fn waiters_word_sets_flag() {
    assert_eq!(waiters_word(3), 0x8000_0003);
    assert_eq!(waiters_word(0x8000_0003), 0x8000_0003);
}
