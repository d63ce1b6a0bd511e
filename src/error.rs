use vstd::prelude::*;

verus! {

/// Failures that the futex and thread entry points report.
#[derive(Clone, Copy, Debug, PartialEq, Eq, Structural)]
pub enum SyscallError {
    /// The futex word no longer held the expected value, or no thread id is
    /// left to hand out; the guest may retry.
    Again,
    /// An unsupported combination of arguments.
    Invalid,
    /// The host cancelled every parked thread; never shown to the guest.
    HostAbort,
    /// The guest's thread-control block describes no usable stack.
    Fault,
    /// Any other error code, passed through from a collaborator.
    Errno(i32),
}

} // verus!
