//! A task's control block and the moving of its program break.

use vstd::prelude::*;
use crate::config::{kernel_stack_fits, kernel_stack_position, kernel_stack_top};
use crate::mm::address::PhysPageNum;
use crate::task::context::{TaskContext, saved_regs_zero};

verus! {

/// The scheduling state of a task.
#[derive(Clone, Copy, Debug, PartialEq, Eq, Structural)]
pub enum TaskStatus {
    UnInit,
    Ready,
    Running,
    Exited,
}

/// A request to resize a task's heap area, which starts at `heap_bottom`,
/// so that it ends at `new_brk`; `shrink` tells which way it moves.
#[derive(Clone, Copy, Debug, PartialEq, Eq, Structural)]
pub struct HeapResize {
    pub shrink: bool,
    pub heap_bottom: usize,
    pub new_brk: usize,
}

/// What the kernel keeps of a task: its saved context, its state, the token
/// of its address space, the page of its trap context, and its heap.
#[derive(Clone, Copy)]
pub struct TaskControlBlock {
    pub task_cx: TaskContext,
    pub task_status: TaskStatus,
    /// The `satp` value that selects the task's address space.
    pub user_token: usize,
    /// Physical page that holds the task's trap context.
    pub trap_cx_ppn: PhysPageNum,
    /// Top of the user stack as loaded.
    pub base_size: usize,
    /// Start of the heap: just above the user stack.
    pub heap_bottom: usize,
    /// Current end of the heap.
    pub program_brk: usize,
}

impl TaskControlBlock {
    /// The heap never ends below its start, and its end is a valid signed
    /// address.
    pub open spec fn wf(self) -> bool {
        self.heap_bottom <= self.program_brk && self.program_brk <= isize::MAX
    }

    /// The heap resize that moving the break by `size` bytes asks for, or
    /// `None` where the break would fall below the heap's start.
    pub open spec fn brk_request(self, size: i32) -> Option<HeapResize> {
        let new_brk = self.program_brk + size;
        if new_brk < self.heap_bottom {
            None
        } else {
            Some(HeapResize { shrink: size < 0, heap_bottom: self.heap_bottom, new_brk: new_brk as usize })
        }
    }

    /// The block with its break set to `brk`.
    pub open spec fn with_brk(self, brk: usize) -> Self {
        TaskControlBlock { program_brk: brk, ..self }
    }

    /// What moving the break by `size` returns, and the block it leaves,
    /// when the address space's resize reports `resized`: the old break and
    /// the new block on success, `None` and the block unchanged otherwise.
    pub open spec fn brk_outcome(self, size: i32, resized: bool) -> (Option<usize>, Self) {
        match self.brk_request(size) {
            Some(req) => if resized {
                (Some(self.program_brk), self.with_brk(req.new_brk))
            } else {
                (None, self)
            },
            None => (None, self),
        }
    }

    /// A ready task for application `app_id`, whose address space has token
    /// `user_token`, whose trap context is in page `trap_cx_ppn` and whose
    /// user stack tops at `user_sp`; its context resumes at
    /// `trap_return_entry` on its kernel stack.
    pub fn new(
        user_token: usize,
        trap_cx_ppn: PhysPageNum,
        user_sp: usize,
        app_id: usize,
        trap_return_entry: usize,
    ) -> (r: Self)
        requires
            kernel_stack_fits(app_id as int),
            user_sp <= isize::MAX,
        ensures
            r.task_cx.ra == trap_return_entry,
            r.task_cx.sp == kernel_stack_top(app_id as int),
            saved_regs_zero(r.task_cx),
            r.task_status == TaskStatus::Ready,
            r.user_token == user_token,
            r.trap_cx_ppn == trap_cx_ppn,
            r.base_size == user_sp,
            r.heap_bottom == user_sp,
            r.program_brk == user_sp,
            r.wf(),
    {
        let (_kernel_stack_bottom, kernel_stack_top) = kernel_stack_position(app_id);
        TaskControlBlock {
            task_cx: TaskContext::goto_trap_return(trap_return_entry, kernel_stack_top),
            task_status: TaskStatus::Ready,
            user_token,
            trap_cx_ppn,
            base_size: user_sp,
            heap_bottom: user_sp,
            program_brk: user_sp,
        }
    }

    /// The token of the task's address space.
    pub fn get_user_token(&self) -> (r: usize)
        ensures
            r == self.user_token,
    {
        self.user_token
    }

    /// Moves the break by `size` bytes. Where the break would fall below
    /// the heap's start it returns `None`; otherwise it asks `resize` to
    /// grow or shrink the heap area, and on success sets the new break and
    /// returns the old one.
    pub fn change_program_brk<F: FnOnce(HeapResize) -> bool>(&mut self, size: i32, resize: F) -> (r:
        Option<usize>)
        requires
            old(self).wf(),
            old(self).program_brk + size <= isize::MAX,
            old(self).brk_request(size) matches Some(req) ==> call_requires(resize, (req,)),
        ensures
            old(self).brk_request(size) matches Some(req) ==> call_ensures(resize, (req,), r is Some),
            (r, *final(self)) == old(self).brk_outcome(size, r is Some),
            final(self).wf(),
    {
        let old_break: usize = self.program_brk;
        let new_brk: i128 = self.program_brk as i128 + size as i128;
        if new_brk < self.heap_bottom as i128 {
            return None;
        }
        let req = HeapResize { shrink: size < 0, heap_bottom: self.heap_bottom, new_brk: new_brk as usize };
        let resized: bool = resize(req);
        if resized {
            self.program_brk = new_brk as usize;
            Some(old_break)
        } else {
            None
        }
    }
}

/// Whatever the resize reports, moving the break keeps it at or above the
/// heap's start, returns only a break that was at or above it, and changes
/// nothing but the break.
pub proof fn brk_stays_above_heap_start(t: TaskControlBlock, size: i32, resized: bool)
    requires
        t.heap_bottom <= t.program_brk,
        t.program_brk + size <= usize::MAX,
    ensures
        ({
            let (r, t1) = t.brk_outcome(size, resized);
            &&& t1.heap_bottom <= t1.program_brk
            &&& (r matches Some(b) ==> b >= t.heap_bottom)
            &&& t1 == t.with_brk(t1.program_brk)
        }),
{
}

/// Moving the break by `n` and then by `-n`, where both resizes succeed,
/// returns the old break at each step and ends where it began; the block in
/// between keeps its invariant.
pub proof fn brk_round_trip(t: TaskControlBlock, n: i32)
    requires
        t.wf(),
        n > i32::MIN,
        t.heap_bottom <= t.program_brk + n <= isize::MAX,
    ensures
        ({
            let (r1, t1) = t.brk_outcome(n, true);
            let (r2, t2) = t1.brk_outcome((-n) as i32, true);
            &&& r1 == Some(t.program_brk)
            &&& r2 == Some((t.program_brk + n) as usize)
            &&& t2 == t
            &&& t1.wf()
        }),
{
}

/// Moving the break by `size` asks to resize the heap so that the break
/// moves by exactly `size`: the request keeps the heap's start, ends the
/// heap at the old break plus `size`, and asks for a shrink exactly when
/// `size` is negative, that is when the new break lies below the old one.
/// It asks for nothing exactly when the break would fall below the heap's
/// start. On success the old break is returned and the break moves by
/// `size`; on failure nothing changes.
pub proof fn brk_request_moves_by_size(t: TaskControlBlock, size: i32)
    requires
        t.program_brk + size <= usize::MAX,
    ensures
        (t.brk_request(size) is None) <==> t.program_brk + size < t.heap_bottom,
        t.brk_request(size) matches Some(req) ==> {
            &&& req.heap_bottom == t.heap_bottom
            &&& req.new_brk == t.program_brk + size
            &&& req.shrink == (size < 0)
            &&& req.shrink == (req.new_brk < t.program_brk)
        },
        t.brk_request(size) is Some ==> {
            &&& t.brk_outcome(size, true).0 == Some(t.program_brk)
            &&& t.brk_outcome(size, true).1.program_brk == t.program_brk + size
            &&& t.brk_outcome(size, true).1.heap_bottom == t.heap_bottom
            &&& t.brk_outcome(size, true).1.base_size == t.base_size
            &&& t.brk_outcome(size, true).1.task_status == t.task_status
            &&& t.brk_outcome(size, true).1.user_token == t.user_token
            &&& t.brk_outcome(size, true).1.trap_cx_ppn == t.trap_cx_ppn
            &&& t.brk_outcome(size, true).1.task_cx == t.task_cx
        },
        t.brk_outcome(size, false) == (None::<usize>, t),
{
}

} // verus!
