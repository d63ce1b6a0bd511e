//! The per-thread state that the futex engine reads and writes.
use vstd::prelude::*;

verus! {

/// `park_addr` holds this while the thread is not parked.
pub const NOT_PARKED: usize = 0;

/// The synchronization state of one guest thread.
#[derive(Clone, Copy, Debug, PartialEq, Eq, Structural)]
pub struct Context {
    /// The guest-visible thread id.
    pub tid: u32,
    /// The address the thread is parked on, or `NOT_PARKED`.
    pub park_addr: usize,
    /// The guest address of the thread's thread-local-storage block.
    pub thread_area: usize,
    /// The guest word to zero and wake when the thread exits, or 0.
    pub clear_child_tid: usize,
    /// The guest stack pointer the thread starts from.
    pub guest_rsp: usize,
}

impl Context {
    /// A thread that has just been created and is not parked.
    pub open spec fn fresh(tid: u32, thread_area: usize, guest_rsp: usize, clear_child_tid: usize) -> Context {
        Context { tid, park_addr: NOT_PARKED, thread_area, clear_child_tid, guest_rsp }
    }

    /// The same thread with `park_addr` replaced.
    pub open spec fn parked_at(self, addr: usize) -> Context {
        Context { park_addr: addr, ..self }
    }

    pub fn new(tid: u32, thread_area: usize, guest_rsp: usize, clear_child_tid: usize) -> (r: Context)
        ensures
            r == Context::fresh(tid, thread_area, guest_rsp, clear_child_tid),
    {
        Context { tid, park_addr: NOT_PARKED, thread_area, clear_child_tid, guest_rsp }
    }

    /// Records that the thread is about to sleep on `addr`.
    pub fn begin_park(&mut self, addr: usize)
        ensures
            *final(self) == old(self).parked_at(addr),
    {
        self.park_addr = addr;
    }

    /// Records that the thread is no longer parked.
    pub fn end_park(&mut self)
        ensures
            *final(self) == old(self).parked_at(NOT_PARKED),
    {
        self.park_addr = NOT_PARKED;
    }

    pub fn is_parked(&self) -> (r: bool)
        ensures
            r == (self.park_addr != NOT_PARKED),
    {
        self.park_addr != NOT_PARKED
    }
}

} // verus!
