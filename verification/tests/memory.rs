use lib::hal::memory::Memory;
use lib::kernel::mm::{alloc_bytes, free_bytes, init};
use lib::x86_64::memory::{BumpAllocator, BASE, END, FRAME};

#[test]
fn bump_allocator_hands_out_frames_in_order() {
    let mut a = BumpAllocator::new();
    assert_eq!(a.alloc_frames(1), Some(BASE));
    assert_eq!(a.alloc_frames(2), Some(BASE + FRAME));
    assert_eq!(a.alloc_frames(1), Some(BASE + 3 * FRAME));
}

#[test]
fn bump_allocator_reports_sizes() {
    let mut a = BumpAllocator::new();
    assert_eq!(a.frame_size(), 4096);
    assert!(a.frame_size().is_power_of_two());
    assert_eq!(a.total_bytes(), 0x0030_0000);
    assert_eq!(a.free_bytes(), END - BASE);
    a.alloc_frames(3);
    assert_eq!(a.free_bytes(), END - BASE - 3 * FRAME);
    assert_eq!(a.free_bytes() + 3 * FRAME, a.total_bytes());
}

#[test]
fn bump_allocator_fills_pool_exactly() {
    let mut a = BumpAllocator::new();
    let frames = (END - BASE) / FRAME;
    assert_eq!(a.alloc_frames(frames), Some(BASE));
    assert_eq!(a.free_bytes(), 0);
    assert_eq!(a.alloc_frames(1), None);
}

#[test]
fn bump_allocator_failure_changes_nothing() {
    let mut a = BumpAllocator::new();
    assert_eq!(a.alloc_frames(1000), None);
    assert_eq!(a.free_bytes(), 0x30_0000);
    assert_eq!(a.alloc_frames(1), Some(0x10_0000));
}

#[test]
fn bump_allocator_huge_request_is_refused_without_panic() {
    let mut a = BumpAllocator::new();
    assert_eq!(a.alloc_frames(usize::MAX), None);
    assert_eq!(a.alloc_frames(usize::MAX / FRAME + 1), None);
    assert_eq!(a.free_bytes(), END - BASE);
}

#[test]
fn bump_allocator_over_aarch64_pool() {
    let mut a = BumpAllocator::with_pool(0x4000_0000, 0x4040_0000);
    assert_eq!(a.total_bytes(), 0x40_0000);
    assert_eq!(a.alloc_frames(2), Some(0x4000_0000));
    assert_eq!(a.alloc_frames(1), Some(0x4000_2000));
    assert_eq!(a.free_bytes(), 0x40_0000 - 3 * FRAME);
}

#[test]
fn bump_allocator_zero_frames_returns_next() {
    let mut a = BumpAllocator::new();
    assert_eq!(a.alloc_frames(0), Some(BASE));
    assert_eq!(a.alloc_frames(1), Some(BASE));
}

#[test]
fn bump_allocator_free_is_a_no_op() {
    let mut a = BumpAllocator::new();
    let b = a.alloc_frames(2).unwrap();
    let before = a.free_bytes();
    a.free_frames(b, 2);
    assert_eq!(a.free_bytes(), before);
    assert_eq!(a.alloc_frames(1), Some(BASE + 2 * FRAME));
}

#[test]
fn bump_allocations_never_overlap() {
    let mut a = BumpAllocator::new();
    let mut last_end = BASE;
    for count in [1usize, 3, 2, 5, 1] {
        let b = a.alloc_frames(count).unwrap();
        assert!(b >= last_end);
        assert_eq!(b % FRAME, 0);
        last_end = b + count * FRAME;
        assert!(last_end <= END);
    }
}

#[test]
fn alloc_bytes_without_allocator_is_none() {
    let mut slot: Option<BumpAllocator> = None;
    assert_eq!(alloc_bytes(&mut slot, 100), None);
    free_bytes(&mut slot, 0x1000, 100);
    assert!(slot.is_none());
}

#[test]
fn alloc_bytes_rounds_up_to_whole_frames() {
    let mut slot: Option<BumpAllocator> = None;
    init(&mut slot, BumpAllocator::new());
    assert_eq!(alloc_bytes(&mut slot, 5000), Some(BASE));
    // 5000 bytes took two frames.
    assert_eq!(alloc_bytes(&mut slot, 1), Some(BASE + 2 * FRAME));
    // Exactly one frame takes one frame.
    assert_eq!(alloc_bytes(&mut slot, 4096), Some(BASE + 3 * FRAME));
    assert_eq!(alloc_bytes(&mut slot, 0), Some(BASE + 4 * FRAME));
    assert_eq!(alloc_bytes(&mut slot, 1), Some(BASE + 4 * FRAME));
}

#[test]
fn alloc_bytes_out_of_memory_is_none() {
    let mut slot = Some(BumpAllocator::new());
    assert_eq!(alloc_bytes(&mut slot, END - BASE + 1), None);
}

#[test]
fn free_bytes_keeps_allocator() {
    let mut slot = Some(BumpAllocator::new());
    let b = alloc_bytes(&mut slot, 8192).unwrap();
    free_bytes(&mut slot, b, 8192);
    assert_eq!(slot.as_ref().unwrap().free_bytes(), END - BASE - 2 * FRAME);
}

#[test]
fn allocations_after_failure_and_free_do_not_overlap() {
    let mut a = BumpAllocator::new();
    let first = a.alloc_frames(4).unwrap();
    a.free_frames(first, 4);
    let second = a.alloc_frames(2).unwrap();
    assert!(second >= first + 4 * FRAME);
    assert_eq!(a.alloc_frames(10_000), None);
    let third = a.alloc_frames(1).unwrap();
    assert_eq!(third, second + 2 * FRAME);
}

#[test]
fn alloc_bytes_of_any_size_does_not_panic() {
    let mut slot = Some(BumpAllocator::new());
    assert_eq!(alloc_bytes(&mut slot, usize::MAX), None);
    assert_eq!(alloc_bytes(&mut slot, usize::MAX - 1), None);
    assert_eq!(alloc_bytes(&mut slot, 1), Some(BASE));
    free_bytes(&mut slot, BASE, usize::MAX);
}
