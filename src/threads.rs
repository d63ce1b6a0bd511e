//! The registry of guest threads and the clone-like creation of new ones.
use vstd::prelude::*;
use crate::context::Context;
use crate::error::SyscallError;
use crate::word::FUTEX_TID_MASK;

verus! {

/// The granularity of memory protection.
pub const PAGE_SIZE: usize = 4096;

/// The first thread id the registry hands out.
pub const FIRST_TID: u32 = 1;

/// A range of guest addresses.
#[derive(Clone, Copy, Debug, PartialEq, Eq, Structural)]
pub struct AddressRange {
    pub start: usize,
    pub size: usize,
}

/// `x` rounded down to a page boundary.
pub open spec fn align_down(x: int) -> int {
    x - x % (PAGE_SIZE as int)
}

/// `x` rounded up to a page boundary.
pub open spec fn align_up(x: int) -> int {
    align_down(x + PAGE_SIZE - 1)
}

impl AddressRange {
    pub open spec fn end(self) -> int {
        self.start + self.size
    }

    /// The smallest page-aligned range that contains this one.
    pub open spec fn expanded(self) -> AddressRange {
        AddressRange {
            start: align_down(self.start as int) as usize,
            size: (align_up(self.end()) - align_down(self.start as int)) as usize,
        }
    }

    /// Grows the range to page boundaries; `None` when its rounded-up end
    /// does not fit in the address space.
    pub fn align_expand(&self) -> (r: Option<AddressRange>)
        requires
            self.end() <= usize::MAX,
        ensures
            r is None <==> align_up(self.end()) > usize::MAX,
            r matches Some(a) ==> a == self.expanded(),
    {
        let end = self.start + self.size;
        let start = self.start - self.start % PAGE_SIZE;
        let rem = end % PAGE_SIZE;
        proof {
            lemma_align_up(end as int);
        }
        if rem == 0 {
            return Some(AddressRange { start, size: end - start });
        }
        let down = end - rem;
        if down > usize::MAX - PAGE_SIZE {
            return None;
        }
        let up = down + PAGE_SIZE;
        Some(AddressRange { start, size: up - start })
    }
}

proof fn lemma_align_up(x: int)
    requires
        x >= 0,
    ensures
        x % (PAGE_SIZE as int) == 0 ==> align_up(x) == x,
        x % (PAGE_SIZE as int) != 0 ==> align_up(x) == x - x % (PAGE_SIZE as int) + PAGE_SIZE,
        align_down(x) <= x,
        align_down(x) >= 0,
{
    let p = PAGE_SIZE as int;
    assert(x == p * (x / p) + x % p) by (nonlinear_arith) requires p > 0;
    let y = x + p - 1;
    assert(y == p * (y / p) + y % p) by (nonlinear_arith) requires p > 0;
    assert(0 <= x % p < p);
    assert(0 <= y % p < p);
    if x % p == 0 {
        assert(y / p == x / p) by (nonlinear_arith)
            requires y == p * (y / p) + y % p, x == p * (x / p), y == x + p - 1, 0 <= y % p < p, p > 0;
    } else {
        assert(y / p == x / p + 1) by (nonlinear_arith)
            requires y == p * (y / p) + y % p, x == p * (x / p) + x % p, y == x + p - 1,
                0 <= y % p < p, 0 < x % p < p, p > 0;
    }
    assert(x / p >= 0) by (nonlinear_arith) requires x >= 0, p > 0;
    assert(p * (x / p) >= 0) by (nonlinear_arith) requires x / p >= 0, p > 0;
}

/// The page-aligned stack range of a new thread, from the stack's high
/// address and size as read from its thread-control block. An empty stack,
/// one that would start below address 0, or one whose aligned end does not
/// fit is a configuration fault.
pub open spec fn stack_range_of(stack_end: usize, stack_size: usize) -> Result<AddressRange, SyscallError> {
    if stack_size == 0 || stack_size > stack_end || align_up(stack_end as int) > usize::MAX {
        Err(SyscallError::Fault)
    } else {
        Ok(AddressRange { start: (stack_end - stack_size) as usize, size: stack_size }.expanded())
    }
}

/// Computes the range that must be made usable as stack before a thread
/// with this stack starts.
pub fn thread_stack_range(stack_end: usize, stack_size: usize) -> (r: Result<AddressRange, SyscallError>)
    ensures
        r == stack_range_of(stack_end, stack_size),
{
    if stack_size == 0 || stack_size > stack_end {
        return Err(SyscallError::Fault);
    }
    let stack = AddressRange { start: stack_end - stack_size, size: stack_size };
    match stack.align_expand() {
        Some(a) => Ok(a),
        None => Err(SyscallError::Fault),
    }
}

/// A registered guest thread: its id and the handle of the native thread
/// that runs it. The native thread owns the thread's `Context`.
pub struct GuestThread<H> {
    pub tid: u32,
    pub native_thread: H,
}

/// The registry of one sandbox's guest threads, in creation order.
pub struct GuestThreadSet<H> {
    next_tid: u32,
    threads: Vec<GuestThread<H>>,
}

impl<H> GuestThreadSet<H> {
    /// The id the next thread will get.
    pub closed spec fn spec_next_tid(&self) -> u32 {
        self.next_tid
    }

    /// The registered threads, oldest first.
    pub closed spec fn spec_threads(&self) -> Seq<GuestThread<H>> {
        self.threads@
    }

    /// Ids are handed out in increasing order from `FIRST_TID`, each below
    /// `next_tid`, and every id fits the owner field of a mutex word.
    pub open spec fn wf(&self) -> bool {
        &&& FIRST_TID <= self.spec_next_tid() <= FUTEX_TID_MASK + 1
        &&& forall|i: int| 0 <= i < self.spec_threads().len() ==>
                FIRST_TID <= #[trigger] self.spec_threads()[i].tid < self.spec_next_tid()
        &&& forall|i: int, j: int| 0 <= i < j < self.spec_threads().len() ==>
                #[trigger] self.spec_threads()[i].tid < #[trigger] self.spec_threads()[j].tid
    }

    pub fn new() -> (r: GuestThreadSet<H>)
        ensures
            r.wf(),
            r.spec_next_tid() == FIRST_TID,
            r.spec_threads().len() == 0,
    {
        GuestThreadSet { next_tid: FIRST_TID, threads: Vec::new() }
    }

    /// The id the next thread will get.
    pub fn next_tid(&self) -> (r: u32)
        ensures
            r == self.spec_next_tid(),
    {
        self.next_tid
    }

    /// The ids of the registered threads, oldest first.
    pub fn tids(&self) -> (r: Vec<u32>)
        ensures
            r@.len() == self.spec_threads().len(),
            forall|i: int| 0 <= i < r@.len() ==> r@[i] == #[trigger] self.spec_threads()[i].tid,
    {
        let mut r: Vec<u32> = Vec::new();
        let mut i: usize = 0;
        while i < self.threads.len()
            invariant
                i <= self.threads@.len(),
                r@.len() == i,
                forall|k: int| 0 <= k < i ==> r@[k] == #[trigger] self.threads@[k].tid,
            decreases self.threads@.len() - i,
        {
            r.push(self.threads[i].tid);
            i = i + 1;
        }
        r
    }

    /// Creates a guest thread, after the manner of a clone that shares the
    /// address space, files and signal handlers, sets the thread area and
    /// the parent's tid word, clears the child's tid word on exit, and is
    /// detached.
    ///
    /// The stack range found in the thread-control block is made usable
    /// through `protect`; a fresh id is taken; `start` receives the new
    /// thread's `Context` (it writes the id to the parent's tid word and
    /// starts the native thread) and returns the handle that is registered.
    /// Nothing changes when the stack range is invalid, when ids are
    /// exhausted (`Again`), or when `protect` fails (its error is returned).
    pub fn spawn<P, F>(
        &mut self,
        stack_end: usize,
        stack_size: usize,
        thread_area: usize,
        guest_rsp: usize,
        child_tid: usize,
        protect: P,
        start: F,
    ) -> (r: Result<u32, SyscallError>) where
        P: FnOnce(AddressRange) -> Result<(), SyscallError>,
        F: FnOnce(Context) -> H,

        requires
            old(self).wf(),
            forall|a: AddressRange| protect.requires((a,)),
            forall|c: Context| start.requires((c,)),
        ensures
            final(self).wf(),
            match stack_range_of(stack_end, stack_size) {
                Err(e) => r == Err::<u32, SyscallError>(e) && *final(self) == *old(self),
                Ok(range) => if old(self).spec_next_tid() > FUTEX_TID_MASK {
                    r == Err::<u32, SyscallError>(SyscallError::Again) && *final(self) == *old(self)
                } else {
                    &&& r matches Err(e) ==> {
                        &&& protect.ensures((range,), Err(e))
                        &&& *final(self) == *old(self)
                    }
                    &&& r matches Ok(tid) ==> {
                        &&& protect.ensures((range,), Ok(()))
                        &&& tid == old(self).spec_next_tid()
                        &&& final(self).spec_next_tid() == tid + 1
                        &&& final(self).spec_threads().len() == old(self).spec_threads().len() + 1
                        &&& final(self).spec_threads().drop_last() == old(self).spec_threads()
                        &&& final(self).spec_threads().last().tid == tid
                        &&& start.ensures(
                            (Context::fresh(tid, thread_area, guest_rsp, child_tid),),
                            final(self).spec_threads().last().native_thread,
                        )
                    }
                },
            },
    {
        let range = match thread_stack_range(stack_end, stack_size) {
            Ok(a) => a,
            Err(e) => return Err(e),
        };
        if self.next_tid > FUTEX_TID_MASK {
            return Err(SyscallError::Again);
        }
        let protected = protect(range);
        match protected {
            Ok(u) => {
                assert(u == ());
            },
            Err(e) => return Err(e),
        }
        let tid = self.next_tid;
        let context = Context::new(tid, thread_area, guest_rsp, child_tid);
        let native_thread = start(context);
        self.threads.push(GuestThread { tid, native_thread });
        self.next_tid = tid + 1;
        proof {
            let old_threads = old(self).threads@;
            assert(self.threads@.drop_last() == old_threads);
            assert(self.threads@.last().tid == tid);
            assert forall|i: int| 0 <= i < self.threads@.len() implies
                FIRST_TID <= #[trigger] self.threads@[i].tid < self.next_tid by {
                if i < old_threads.len() {
                    assert(self.threads@[i] == old_threads[i]);
                    assert(FIRST_TID <= old(self).spec_threads()[i].tid < old(self).spec_next_tid());
                }
            }
            assert forall|i: int, j: int| 0 <= i < j < self.threads@.len() implies
                #[trigger] self.threads@[i].tid < #[trigger] self.threads@[j].tid by {
                assert(self.threads@[i] == old_threads[i]);
                assert(FIRST_TID <= old(self).spec_threads()[i].tid < old(self).spec_next_tid());
                if j < old_threads.len() {
                    assert(self.threads@[j] == old_threads[j]);
                    assert(old(self).spec_threads()[i].tid < old(self).spec_threads()[j].tid);
                }
            }
        }
        Ok(tid)
    }
}

} // verus!
