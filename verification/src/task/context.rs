//! The registers that a task switch saves and restores.

use vstd::prelude::*;

verus! {

/// Saved registers of a task that is not running: the return address, the
/// kernel stack pointer and the callee-saved registers `s0`..`s11`.
#[derive(Clone, Copy)]
pub struct TaskContext {
    /// Return address: where the task resumes.
    pub ra: usize,
    /// Kernel stack pointer.
    pub sp: usize,
    /// Callee-saved registers `s0`..`s11`.
    pub s: [usize; 12],
}

/// Whether every callee-saved register of `cx` is zero.
pub open spec fn saved_regs_zero(cx: TaskContext) -> bool {
    forall|i: int| 0 <= i < 12 ==> #[trigger] cx.s[i] == 0
}

impl TaskContext {
    /// A context with every register zero.
    pub fn zero_init() -> (r: Self)
        ensures
            r.ra == 0,
            r.sp == 0,
            saved_regs_zero(r),
    {
        TaskContext { ra: 0, sp: 0, s: [0, 0, 0, 0, 0, 0, 0, 0, 0, 0, 0, 0] }
    }

    /// A context that resumes at `trap_return_entry` on the kernel stack
    /// whose top is `kstack_ptr`: switching to it returns to user mode
    /// through the trap return path.
    pub fn goto_trap_return(trap_return_entry: usize, kstack_ptr: usize) -> (r: Self)
        ensures
            r.ra == trap_return_entry,
            r.sp == kstack_ptr,
            saved_regs_zero(r),
    {
        TaskContext {
            ra: trap_return_entry,
            sp: kstack_ptr,
            s: [0, 0, 0, 0, 0, 0, 0, 0, 0, 0, 0, 0],
        }
    }
}

} // verus!
