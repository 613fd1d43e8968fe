use os::config::MEMORY_END;
use os::mm::address::{phys_addr_ceil, phys_addr_floor, PhysPageNum};
use os::mm::frame_allocator::{frame_alloc, frame_dealloc, init_frame_allocator, FrameTracker, StackFrameAllocator};

#[test]
fn new_allocator_has_no_frames() {
    let mut a = StackFrameAllocator::new();
    assert_eq!(a.alloc_frame(), None);
}

#[test]
fn allocates_range_in_order_then_fails() {
    let mut a = StackFrameAllocator::new();
    a.init(PhysPageNum(10), PhysPageNum(13));
    assert_eq!(a.alloc_frame(), Some(PhysPageNum(10)));
    assert_eq!(a.alloc_frame(), Some(PhysPageNum(11)));
    assert_eq!(a.alloc_frame(), Some(PhysPageNum(12)));
    assert_eq!(a.alloc_frame(), None);
    assert_eq!(a.alloc_frame(), None);
}

#[test]
fn recycled_frames_come_back_last_in_first_out() {
    let mut a = StackFrameAllocator::new();
    a.init(PhysPageNum(0), PhysPageNum(4));
    let p0 = a.alloc_frame().unwrap();
    let p1 = a.alloc_frame().unwrap();
    let p2 = a.alloc_frame().unwrap();
    a.dealloc(p0);
    a.dealloc(p2);
    assert_eq!(a.alloc_frame(), Some(p2));
    assert_eq!(a.alloc_frame(), Some(p0));
    assert_eq!(a.alloc_frame(), Some(PhysPageNum(3)));
    assert_eq!(a.alloc_frame(), None);
    a.dealloc(p1);
    assert_eq!(a.alloc_frame(), Some(p1));
}

#[test]
fn dealloc_then_alloc_gives_same_frame() {
    let mut a = StackFrameAllocator::new();
    a.init(PhysPageNum(100), PhysPageNum(200));
    let p = a.alloc_frame().unwrap();
    let _q = a.alloc_frame().unwrap();
    a.dealloc(p);
    assert_eq!(a.alloc_frame(), Some(p));
}

#[test]
fn consecutive_allocations_are_distinct() {
    let mut a = StackFrameAllocator::new();
    a.init(PhysPageNum(5), PhysPageNum(7));
    let x = a.alloc_frame().unwrap();
    let y = a.alloc_frame().unwrap();
    assert_ne!(x, y);
}

#[test]
fn frame_alloc_tracks_the_page() {
    let mut a = StackFrameAllocator::new();
    a.init(PhysPageNum(42), PhysPageNum(43));
    let t = frame_alloc(&mut a).unwrap();
    assert_eq!(t.ppn(), PhysPageNum(42));
    assert_eq!(t.ppn, PhysPageNum(42));
    assert!(frame_alloc(&mut a).is_none());
    frame_dealloc(&mut a, t.ppn());
    assert_eq!(frame_alloc(&mut a).unwrap().ppn(), PhysPageNum(42));
}

#[test]
fn frame_tracker_new_keeps_ppn() {
    let t = FrameTracker::new(PhysPageNum(9));
    assert_eq!(t.ppn(), PhysPageNum(9));
}

#[test]
fn init_frame_allocator_spans_kernel_end_to_memory_end() {
    let mut a = StackFrameAllocator::new();
    init_frame_allocator(&mut a, 0x8020_1001);
    assert_eq!(a.alloc_frame(), Some(PhysPageNum(0x80202)));
    let mut b = StackFrameAllocator::new();
    init_frame_allocator(&mut b, 0x8020_1000);
    assert_eq!(b.alloc_frame(), Some(PhysPageNum(0x80201)));
    let mut c = StackFrameAllocator::new();
    init_frame_allocator(&mut c, MEMORY_END);
    assert_eq!(c.alloc_frame(), None);
    let mut d = StackFrameAllocator::new();
    init_frame_allocator(&mut d, MEMORY_END - 0x1000);
    assert_eq!(d.alloc_frame(), Some(PhysPageNum(0x87fff)));
    assert_eq!(d.alloc_frame(), None);
}

#[test]
fn page_rounding() {
    assert_eq!(phys_addr_floor(0), PhysPageNum(0));
    assert_eq!(phys_addr_ceil(0), PhysPageNum(0));
    assert_eq!(phys_addr_floor(0x1fff), PhysPageNum(1));
    assert_eq!(phys_addr_ceil(0x1fff), PhysPageNum(2));
    assert_eq!(phys_addr_ceil(0x2000), PhysPageNum(2));
    assert_eq!(phys_addr_ceil(1), PhysPageNum(1));
    assert_eq!(phys_addr_ceil(usize::MAX), PhysPageNum(usize::MAX / 4096 + 1));
    assert_eq!(phys_addr_floor(MEMORY_END), PhysPageNum(0x88000));
}

#[test]
fn kernel_end_in_last_page_leaves_nothing() {
    let mut e = StackFrameAllocator::new();
    init_frame_allocator(&mut e, MEMORY_END - 1);
    assert_eq!(e.alloc_frame(), None);
}

#[test]
fn allocated_frame_is_not_handed_out_again() {
    let mut a = StackFrameAllocator::new();
    a.init(PhysPageNum(0), PhysPageNum(8));
    let a0 = a.alloc_frame().unwrap();
    let a1 = a.alloc_frame().unwrap();
    a.dealloc(a0);
    let p = a.alloc_frame().unwrap();
    assert_eq!(p, a0);
    let mut seen = vec![p, a1];
    while let Some(q) = a.alloc_frame() {
        assert!(!seen.contains(&q));
        seen.push(q);
    }
    assert_eq!(seen.len(), 8);
}

#[test]
fn can_dealloc_only_handed_out_pages() {
    let mut a = StackFrameAllocator::new();
    a.init(PhysPageNum(10), PhysPageNum(20));
    assert!(!a.can_dealloc(PhysPageNum(10)));
    let p = a.alloc_frame().unwrap();
    let q = a.alloc_frame().unwrap();
    assert!(a.can_dealloc(p));
    assert!(a.can_dealloc(q));
    assert!(a.can_dealloc(PhysPageNum(3)));
    assert!(!a.can_dealloc(PhysPageNum(12)));
    a.dealloc(p);
    assert!(!a.can_dealloc(p));
    assert!(a.can_dealloc(q));
}

#[test]
fn init_keeps_recycled_pages() {
    let mut a = StackFrameAllocator::new();
    a.init(PhysPageNum(0), PhysPageNum(4));
    let p = a.alloc_frame().unwrap();
    a.dealloc(p);
    a.init(PhysPageNum(8), PhysPageNum(9));
    assert_eq!(a.alloc_frame(), Some(p));
    assert_eq!(a.alloc_frame(), Some(PhysPageNum(8)));
    assert_eq!(a.alloc_frame(), None);
}
