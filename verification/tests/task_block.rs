use os::config::{kernel_stack_position, KERNEL_STACK_SIZE, PAGE_SIZE, TRAMPOLINE};
use os::mm::address::PhysPageNum;
use os::task::context::TaskContext;
use os::task::task::{HeapResize, TaskControlBlock, TaskStatus};

#[test]
fn zero_context() {
    let cx = TaskContext::zero_init();
    assert_eq!(cx.ra, 0);
    assert_eq!(cx.sp, 0);
    assert_eq!(cx.s, [0; 12]);
}

#[test]
fn trap_return_context() {
    let cx = TaskContext::goto_trap_return(0x8020_0000, 0x1234_5000);
    assert_eq!(cx.ra, 0x8020_0000);
    assert_eq!(cx.sp, 0x1234_5000);
    assert_eq!(cx.s, [0; 12]);
}

#[test]
fn new_block_is_ready_on_its_kernel_stack() {
    let t = TaskControlBlock::new(0x8000_0000_0008_0400, PhysPageNum(0x8_0500), 0x1_0000, 2, 0x8020_1234);
    assert_eq!(t.task_status, TaskStatus::Ready);
    assert_eq!(t.get_user_token(), 0x8000_0000_0008_0400);
    assert_eq!(t.trap_cx_ppn, PhysPageNum(0x8_0500));
    assert_eq!(t.base_size, 0x1_0000);
    assert_eq!(t.heap_bottom, 0x1_0000);
    assert_eq!(t.program_brk, 0x1_0000);
    assert_eq!(t.task_cx.ra, 0x8020_1234);
    assert_eq!(t.task_cx.sp, kernel_stack_position(2).1);
    assert_eq!(t.task_cx.sp, TRAMPOLINE - 2 * (KERNEL_STACK_SIZE + PAGE_SIZE));
}

#[test]
fn brk_grows_and_shrinks() {
    let mut t = TaskControlBlock::new(1, PhysPageNum(1), 0x4000, 0, 0);
    let mut asked = Vec::new();
    assert_eq!(
        t.change_program_brk(0x1000, |r: HeapResize| {
            asked.push(r);
            true
        }),
        Some(0x4000)
    );
    assert_eq!(t.program_brk, 0x5000);
    assert_eq!(
        t.change_program_brk(-0x1000, |r: HeapResize| {
            asked.push(r);
            true
        }),
        Some(0x5000)
    );
    assert_eq!(t.program_brk, 0x4000);
    assert_eq!(
        asked,
        vec![
            HeapResize { shrink: false, heap_bottom: 0x4000, new_brk: 0x5000 },
            HeapResize { shrink: true, heap_bottom: 0x4000, new_brk: 0x4000 },
        ]
    );
}

#[test]
fn brk_below_heap_start_is_refused_without_resizing() {
    let mut t = TaskControlBlock::new(1, PhysPageNum(1), 0x4000, 0, 0);
    let mut called = false;
    assert_eq!(
        t.change_program_brk(-1, |_r: HeapResize| {
            called = true;
            true
        }),
        None
    );
    assert!(!called);
    assert_eq!(t.program_brk, 0x4000);
}

#[test]
fn failed_resize_keeps_break() {
    let mut t = TaskControlBlock::new(1, PhysPageNum(1), 0x4000, 0, 0);
    assert_eq!(t.change_program_brk(0x10, |_r: HeapResize| false), None);
    assert_eq!(t.program_brk, 0x4000);
    assert_eq!(t.change_program_brk(0, |_r: HeapResize| true), Some(0x4000));
    assert_eq!(t.program_brk, 0x4000);
}

#[test]
fn kernel_stacks_do_not_overlap() {
    let (b0, t0) = kernel_stack_position(0);
    let (b1, t1) = kernel_stack_position(1);
    assert_eq!(t0, TRAMPOLINE);
    assert_eq!(t0 - b0, KERNEL_STACK_SIZE);
    assert_eq!(t1 - b1, KERNEL_STACK_SIZE);
    assert_eq!(b0 - t1, PAGE_SIZE);
}
