use allocandrescu::primitive::{Failing, Stack};
use allocandrescu::{Allocator, ArenaAllocator, Block, Layout};

#[test]
fn stack_allocator_aligns_memory() {
    let mut alloc = Stack::<16>::new();

    let layout = Layout::from_size_align(1, 1).unwrap();
    let ptr1 = alloc.allocate(layout).unwrap();
    assert_eq!(alloc.cursor, 1);
    assert_eq!(ptr1.addr, 0);

    let layout = Layout::from_size_align(4, 4).unwrap();
    // Padding that carries the cursor (offset 1) to the next multiple of 4.
    let ptr1_align_offset: usize = 3;
    let ptr2 = alloc.allocate(layout).unwrap();
    let ptr3 = alloc.allocate(layout).unwrap();
    assert_eq!(alloc.cursor, 4 + 4 + ptr1_align_offset + 1);
    assert_eq!(ptr2.addr, 1 + ptr1_align_offset + ptr1.addr);
    assert_eq!(ptr3.addr, 4 + ptr2.addr);
}

#[test]
fn stack_allocator_allocates_zst() {
    let mut alloc = Stack::<16>::new();

    let layout = Layout::from_size_align(0, 1).unwrap();
    let ptr = alloc.allocate(layout).unwrap();
    assert_eq!(alloc.cursor, 0);
    assert_eq!(ptr.addr, 0);
}

#[test]
fn stack_allocator_handles_out_of_memory() {
    let mut alloc = Stack::<4>::new();

    let layout = Layout::from_size_align(1, 1).unwrap();
    let _ = alloc.allocate(layout).unwrap();
    assert_eq!(alloc.cursor, 1);

    let layout = Layout::from_size_align(4, 4).unwrap();
    let _err = alloc.allocate(layout).unwrap_err();
    assert_eq!(alloc.cursor, 1);
}

#[test]
fn stack_scenario_with_lifo_reclaim() {
    let mut alloc = Stack::<8>::new();
    let unit = |size: usize| Layout::from_size_align(size, 1).unwrap();

    let block = alloc.allocate(unit(3)).unwrap();
    assert_eq!(block, Block { addr: 0, size: 3 });
    assert_eq!(alloc.cursor, 3);

    let block = alloc.allocate(unit(4)).unwrap();
    assert_eq!(block, Block { addr: 3, size: 4 });
    assert_eq!(alloc.cursor, 7);

    alloc.allocate(unit(2)).unwrap_err();
    assert_eq!(alloc.cursor, 7);

    alloc.deallocate(3, unit(4));
    assert_eq!(alloc.cursor, 3);

    let block = alloc.allocate(unit(4)).unwrap();
    assert_eq!(block, Block { addr: 3, size: 4 });
    assert_eq!(alloc.cursor, 7);

    alloc.reset();
    assert_eq!(alloc.cursor, 0);

    assert!(alloc.contains(0, unit(3)));
    assert!(!alloc.contains(6, unit(4)));
}

#[test]
fn stack_deallocate_ignores_non_top_ranges() {
    let mut alloc = Stack::<8>::new();
    let layout = Layout::from_size_align(3, 1).unwrap();
    alloc.allocate(layout).unwrap();
    alloc.allocate(layout).unwrap();
    assert_eq!(alloc.cursor, 6);

    // Not the top of the stack: accepted, but nothing changes.
    alloc.deallocate(0, layout);
    assert_eq!(alloc.cursor, 6);

    // The top of the stack: the cursor retracts.
    alloc.deallocate(3, layout);
    assert_eq!(alloc.cursor, 3);
}

#[test]
fn stack_zero_sized_never_fails_when_full() {
    let mut alloc = Stack::<4>::new();
    let fill = Layout::from_size_align(4, 1).unwrap();
    alloc.allocate(fill).unwrap();
    assert_eq!(alloc.cursor, 4);

    let zst = Layout::from_size_align(0, 4).unwrap();
    let block = alloc.allocate(zst).unwrap();
    assert_eq!(block, Block { addr: 4, size: 0 });
    assert_eq!(alloc.cursor, 4);
}

#[test]
fn stack_owns_exactly_its_arena() {
    let alloc = Stack::<8>::new();
    let unit = |size: usize| Layout::from_size_align(size, 1).unwrap();

    assert!(alloc.contains(0, unit(0)));
    assert!(alloc.contains(0, unit(8)));
    assert!(alloc.contains(7, unit(1)));
    // One byte past the boundary is outside.
    assert!(!alloc.contains(1, unit(8)));
    assert!(!alloc.contains(8, unit(1)));
    assert!(!alloc.contains(9, unit(0)));
    // A range that would wrap the address space is never owned.
    assert!(!alloc.contains(usize::MAX, unit(2)));
}

#[test]
fn failing_allocator_always_fails_and_owns_nothing() {
    let mut alloc = Failing;
    let layout = Layout::from_size_align(1, 1).unwrap();
    alloc.allocate(layout).unwrap_err();
    alloc.deallocate(0, layout);
    assert!(!alloc.contains(0, layout));
}

#[test]
fn layout_rejects_bad_alignments() {
    assert!(Layout::from_size_align(1, 0).is_none());
    assert!(Layout::from_size_align(1, 3).is_none());
    assert!(Layout::from_size_align(1, 6).is_none());
    assert!(Layout::from_size_align(0, 1).is_some());
    assert!(Layout::from_size_align(7, 8).is_some());
    assert!(Layout::from_size_align(1, 1024).is_some());
}
