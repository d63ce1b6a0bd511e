//! What a parked thread learns when it resumes, and what an unpark reports.
use vstd::prelude::*;

verus! {

/// The raw token handed to a thread woken in the ordinary way; it is the
/// parking primitive's default unpark token.
pub const NORMAL_WAKE_TOKEN: usize = 0;

/// The raw token handed to every parked thread when the host aborts.
pub const HOST_ABORT_TOKEN: usize = 1;

/// Why a parked thread was woken.
#[derive(Clone, Copy, Debug, PartialEq, Eq, Structural)]
pub enum WakeToken {
    /// Another guest thread woke it.
    Normal,
    /// The host is cancelling every parked thread.
    HostAbort,
}

impl WakeToken {
    pub open spec fn spec_raw(self) -> usize {
        match self {
            WakeToken::Normal => NORMAL_WAKE_TOKEN,
            WakeToken::HostAbort => HOST_ABORT_TOKEN,
        }
    }

    /// The raw token that carries this cause.
    pub fn raw(self) -> (r: usize)
        ensures
            r == self.spec_raw(),
    {
        match self {
            WakeToken::Normal => NORMAL_WAKE_TOKEN,
            WakeToken::HostAbort => HOST_ABORT_TOKEN,
        }
    }

    /// Reads a raw token; `None` for a token that no one of ours sends,
    /// which means the wait queues are corrupt.
    pub fn from_raw(raw: usize) -> (r: Option<WakeToken>)
        ensures
            r matches Some(t) ==> t.spec_raw() == raw,
            r is None <==> (raw != NORMAL_WAKE_TOKEN && raw != HOST_ABORT_TOKEN),
    {
        if raw == NORMAL_WAKE_TOKEN {
            Some(WakeToken::Normal)
        } else if raw == HOST_ABORT_TOKEN {
            Some(WakeToken::HostAbort)
        } else {
            None
        }
    }
}

/// How an attempt to park ended.
#[derive(Clone, Copy, Debug, PartialEq, Eq, Structural)]
pub enum ParkOutcome {
    /// The check made under the queue lock failed; the thread never slept.
    Invalid,
    /// The thread slept and was woken with this token.
    Unparked(WakeToken),
}

/// What an unpark or requeue reports about the queue it worked on.
#[derive(Clone, Copy, Debug, PartialEq, Eq, Structural)]
pub struct UnparkCounts {
    /// Threads woken.
    pub unparked: usize,
    /// Threads moved to another address without waking.
    pub requeued: usize,
    /// Whether threads remain queued after a thread was woken.
    pub have_more: bool,
}

} // verus!
