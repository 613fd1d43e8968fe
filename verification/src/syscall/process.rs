//! Process system calls: yielding, the time, and the program break.

use vstd::prelude::*;
use crate::task::{TaskManager, TaskManagerView, TaskSwitch, suspend_current_and_run_next, change_program_brk};
use crate::task::task::{HeapResize, TaskStatus};
use crate::timer::{get_time_ms, time_to_ms};

verus! {

/// The calling task gives up the processor. Returns the system call's
/// value, always 0, and the switch to make before returning it.
pub fn sys_yield(manager: &mut TaskManager) -> (r: (isize, TaskSwitch))
    requires
        old(manager)@.wf(),
        old(manager)@.num_app > 0,
    ensures
        r.0 == 0,
        (r.1, final(manager)@) == old(manager)@.mark_current(TaskStatus::Ready).run_next(),
        final(manager)@.wf(),
{
    let switch = suspend_current_and_run_next(manager);
    (0, switch)
}

/// The time in milliseconds, given the `time` register's value.
pub fn sys_get_time(time: usize) -> (r: isize)
    ensures
        r == time_to_ms(time as int),
{
    let ms = get_time_ms(time);
    assert(ms <= isize::MAX) by (nonlinear_arith)
        requires
            ms == time / 1250,
            time <= usize::MAX,
            usize::MAX == 0xffff_ffff || usize::MAX == 0xffff_ffff_ffff_ffff,
            isize::MAX == 0x7fff_ffff || isize::MAX == 0x7fff_ffff_ffff_ffff,
            usize::MAX == 0xffff_ffff <==> isize::MAX == 0x7fff_ffff,
    ;
    ms as isize
}

/// Moves the calling task's program break by `size` bytes, asking `resize`
/// to resize its heap area. Returns the old break, or -1 where the break
/// would fall below the heap's start or the resize fails.
pub fn sys_sbrk<F: FnOnce(HeapResize) -> bool>(manager: &mut TaskManager, size: i32, resize: F) -> (r:
    isize)
    requires
        old(manager)@.wf(),
        old(manager)@.num_app > 0,
        old(manager)@.tasks[old(manager)@.current_task as int].program_brk + size <= isize::MAX,
        old(manager)@.tasks[old(manager)@.current_task as int].brk_request(size) matches Some(req)
            ==> call_requires(resize, (req,)),
    ensures
        old(manager)@.tasks[old(manager)@.current_task as int].brk_request(size) matches Some(req)
            ==> call_ensures(resize, (req,), r != -1),
        r == (match old(manager)@.tasks[old(manager)@.current_task as int].brk_outcome(size, r != -1).0 {
            Some(b) => b as int,
            None => -1,
        }),
        final(manager)@ == (TaskManagerView {
            tasks: old(manager)@.tasks.update(
                old(manager)@.current_task as int,
                old(manager)@.tasks[old(manager)@.current_task as int].brk_outcome(size, r != -1).1,
            ),
            ..old(manager)@
        }),
        final(manager)@.wf(),
{
    let ghost t = manager@.tasks[manager@.current_task as int];
    assert(t.wf());
    if let Some(old_brk) = change_program_brk(manager, size, resize) {
        assert(old_brk == t.program_brk);
        old_brk as isize
    } else {
        -1
    }
}

} // verus!
