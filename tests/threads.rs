use waterboxhost::context::Context;
use waterboxhost::error::SyscallError;
use waterboxhost::threads::{thread_stack_range, AddressRange, GuestThreadSet, FIRST_TID, PAGE_SIZE};

#[test]
fn zero_sized_stack_is_a_fault_without_protection_call() {
    let mut set: GuestThreadSet<u32> = GuestThreadSet::new();
    let mut protected = false;
    let r = set.spawn(0x10000, 0, 0x500, 0x8000, 0x600, |_| { protected = true; Ok(()) }, |c: Context| c.tid);
    assert_eq!(r, Err(SyscallError::Fault));
    assert!(!protected);
    assert_eq!(set.next_tid(), FIRST_TID);
    assert!(set.tids().is_empty());
}

#[test]
fn stack_below_zero_is_a_fault() {
    assert_eq!(thread_stack_range(0x1000, 0x2000), Err(SyscallError::Fault));
}

#[test]
fn stack_range_is_page_aligned() {
    assert_eq!(thread_stack_range(0x12345, 0x2000), Ok(AddressRange { start: 0x10000, size: 0x3000 }));
    assert_eq!(thread_stack_range(0x20000, 0x10000), Ok(AddressRange { start: 0x10000, size: 0x10000 }));
    assert_eq!(thread_stack_range(usize::MAX, 1), Err(SyscallError::Fault));
    let top = usize::MAX - (PAGE_SIZE - 1);
    assert_eq!(thread_stack_range(top, PAGE_SIZE), Ok(AddressRange { start: top - PAGE_SIZE, size: PAGE_SIZE }));
}

#[test]
fn spawn_assigns_increasing_tids() {
    let mut set: GuestThreadSet<Context> = GuestThreadSet::new();
    let mut ranges = Vec::new();
    let a = set.spawn(0x20000, 0x1000, 0x500, 0x1ff00, 0x600, |r| { ranges.push(r); Ok(()) }, |c| c);
    let b = set.spawn(0x30000, 0x1000, 0x700, 0x2ff00, 0, |r| { ranges.push(r); Ok(()) }, |c| c);
    assert_eq!(a, Ok(1));
    assert_eq!(b, Ok(2));
    assert_eq!(set.tids(), vec![1, 2]);
    assert_eq!(set.next_tid(), 3);
    assert_eq!(ranges, vec![
        AddressRange { start: 0x1f000, size: 0x1000 },
        AddressRange { start: 0x2f000, size: 0x1000 },
    ]);
}

#[test]
fn spawn_hands_fresh_context_to_start() {
    let mut set: GuestThreadSet<Context> = GuestThreadSet::new();
    let mut seen = None;
    let r = set.spawn(0x20000, 0x1000, 0x500, 0x1ff00, 0x600, |_| Ok(()), |c| { seen = Some(c); c });
    assert_eq!(r, Ok(1));
    let c = seen.unwrap();
    assert_eq!(c, Context::new(1, 0x500, 0x1ff00, 0x600));
    assert_eq!(c.thread_area, 0x500);
    assert_eq!(c.clear_child_tid, 0x600);
    assert!(!c.is_parked());
}

#[test]
fn protection_failure_is_passed_through() {
    let mut set: GuestThreadSet<u32> = GuestThreadSet::new();
    let r = set.spawn(0x20000, 0x1000, 0, 0, 0, |_| Err(SyscallError::Errno(12)), |c: Context| c.tid);
    assert_eq!(r, Err(SyscallError::Errno(12)));
    assert_eq!(set.next_tid(), FIRST_TID);
    assert!(set.tids().is_empty());
    let ok = set.spawn(0x20000, 0x1000, 0, 0, 0, |_| Ok(()), |c: Context| c.tid);
    assert_eq!(ok, Ok(1));
}
