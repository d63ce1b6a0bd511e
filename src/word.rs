//! The bit layout of a priority-inheriting mutex word.
use vstd::prelude::*;

verus! {

/// Set while at least one thread is queued on the word.
pub const FUTEX_WAITERS: u32 = 0x8000_0000;

/// Set by the kernel convention when an owner died holding the word.
pub const FUTEX_OWNER_DIED: u32 = 0x4000_0000;

/// The bits that hold the owner's thread id.
pub const FUTEX_TID_MASK: u32 = 0x3fff_ffff;

/// The thread id that owns the word; 0 means free.
pub open spec fn owner_of(w: u32) -> u32 {
    w & FUTEX_TID_MASK
}

/// Whether the waiters bit is set.
pub open spec fn has_waiters(w: u32) -> bool {
    w & FUTEX_WAITERS != 0
}

/// The bits above the owner field.
pub open spec fn high_bits(w: u32) -> u32 {
    w & !FUTEX_TID_MASK
}

/// The word a contender installs before parking: the owner it observed,
/// with the waiters bit set.
pub fn waiters_word(observed: u32) -> (r: u32)
    ensures
        r == observed | FUTEX_WAITERS,
        owner_of(r) == owner_of(observed),
        has_waiters(r),
        r & FUTEX_OWNER_DIED == observed & FUTEX_OWNER_DIED,
{
    let r = observed | FUTEX_WAITERS;
    assert(owner_of(r) == owner_of(observed) && has_waiters(r)
        && r & FUTEX_OWNER_DIED == observed & FUTEX_OWNER_DIED) by (bit_vector)
        requires
            r == observed | 0x8000_0000u32,
    ;
    r
}

/// The word a woken contender writes to take ownership: its own thread id
/// in the owner field, every bit above it kept as observed.
pub fn claim_word(observed: u32, tid: u32) -> (r: u32)
    requires
        tid <= FUTEX_TID_MASK,
    ensures
        owner_of(r) == tid,
        high_bits(r) == high_bits(observed),
        has_waiters(r) == has_waiters(observed),
{
    let r = (observed & !FUTEX_TID_MASK) | tid;
    assert(owner_of(r) == tid && high_bits(r) == high_bits(observed)
        && has_waiters(r) == has_waiters(observed)) by (bit_vector)
        requires
            r == (observed & !0x3fff_ffffu32) | tid,
            tid <= 0x3fff_ffffu32,
    ;
    r
}

} // verus!
