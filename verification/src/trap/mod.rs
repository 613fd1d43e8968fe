//! Trap handling: what the kernel does for each cause of a trap from user
//! mode.

pub mod context;

use vstd::prelude::*;
use crate::config::TRAMPOLINE;
use crate::syscall::{SyscallRequest, syscall, syscall_request, is_supported_syscall};
use crate::trap::context::TrapContext;

verus! {

/// Why user code trapped into the kernel.
#[derive(Clone, Copy, Debug, PartialEq, Eq, Structural)]
pub enum TrapCause {
    UserEnvCall,
    StoreFault,
    StorePageFault,
    LoadFault,
    LoadPageFault,
    IllegalInstruction,
    SupervisorTimer,
    /// Any other exception or interrupt.
    Other,
}

/// Why the kernel ends an application.
#[derive(Clone, Copy, Debug, PartialEq, Eq, Structural)]
pub enum KillReason {
    PageFault,
    IllegalInstruction,
}

/// What the kernel does about a trap.
#[derive(Clone, Copy, Debug, PartialEq, Eq, Structural)]
pub enum TrapAction {
    /// Serve the system call, then store its value with `complete_syscall`.
    Syscall(SyscallRequest),
    /// End the current application and run the next one.
    Kill(KillReason),
    /// The time slice is over: set the next timer deadline, suspend the
    /// current application and run the next one.
    Preempt,
}

/// Whether the kernel handles a trap of cause `cause` taken in context
/// `cx`: any cause but `Other`, and for a system call a number it serves.
pub open spec fn trap_handled(cause: TrapCause, cx: TrapContext) -> bool {
    &&& cause != TrapCause::Other
    &&& cause == TrapCause::UserEnvCall ==> is_supported_syscall(cx.x[17])
}

/// What the kernel does for a trap of cause `cause` taken in context `cx`
/// (a trap that `trap_handled` leaves out gets no action of its own).
pub open spec fn trap_action(cause: TrapCause, cx: TrapContext) -> TrapAction {
    match cause {
        TrapCause::UserEnvCall => TrapAction::Syscall(
            syscall_request(cx.x[17], seq![cx.x[10], cx.x[11], cx.x[12]]),
        ),
        TrapCause::StoreFault | TrapCause::StorePageFault | TrapCause::LoadFault
        | TrapCause::LoadPageFault => TrapAction::Kill(KillReason::PageFault),
        TrapCause::IllegalInstruction => TrapAction::Kill(KillReason::IllegalInstruction),
        TrapCause::SupervisorTimer | TrapCause::Other => TrapAction::Preempt,
    }
}

/// Decides what to do about a trap of cause `cause`. For a system call it
/// moves `sepc` past the 4-byte `ecall` instruction, so that user code
/// resumes after it, and decodes the call from `a7` (`x17`) and `a0`..`a2`;
/// every other cause leaves the context unchanged. A trap that the kernel
/// does not handle stops it, so it is left out here.
pub fn trap_handler(cause: TrapCause, cx: &mut TrapContext) -> (r: TrapAction)
    requires
        trap_handled(cause, *old(cx)),
        cause == TrapCause::UserEnvCall ==> old(cx).sepc + 4 <= usize::MAX,
    ensures
        r == trap_action(cause, *old(cx)),
        final(cx).x == old(cx).x,
        final(cx).sstatus == old(cx).sstatus,
        final(cx).sepc == (if cause == TrapCause::UserEnvCall { old(cx).sepc + 4 } else { old(cx).sepc as int }),
{
    match cause {
        TrapCause::UserEnvCall => {
            cx.sepc = cx.sepc + 4;
            let args: [usize; 3] = [cx.x[10], cx.x[11], cx.x[12]];
            let req = syscall(cx.x[17], args);
            assert(args@ =~= seq![cx.x[10], cx.x[11], cx.x[12]]);
            TrapAction::Syscall(req)
        },
        TrapCause::StoreFault | TrapCause::StorePageFault | TrapCause::LoadFault
        | TrapCause::LoadPageFault => TrapAction::Kill(KillReason::PageFault),
        TrapCause::IllegalInstruction => TrapAction::Kill(KillReason::IllegalInstruction),
        TrapCause::SupervisorTimer | TrapCause::Other => TrapAction::Preempt,
    }
}

/// Stores a system call's value `ret` in `a0` (`x10`), as the bits of the
/// signed value.
pub fn complete_syscall(cx: &mut TrapContext, ret: isize)
    ensures
        final(cx).x@ == old(cx).x@.update(10, ret as usize),
        final(cx).sstatus == old(cx).sstatus,
        final(cx).sepc == old(cx).sepc,
{
    cx.x[10] = ret as usize;
}

/// The virtual address of the restore routine in the trampoline page, which
/// is mapped at `TRAMPOLINE` in every address space: the routine's offset
/// from the start of the trap entry code (`alltraps`), added to the page.
pub fn restore_va(alltraps: usize, restore: usize) -> (r: usize)
    requires
        alltraps <= restore,
        TRAMPOLINE + (restore - alltraps) <= usize::MAX,
    ensures
        r == TRAMPOLINE + (restore - alltraps),
{
    TRAMPOLINE + (restore - alltraps)
}

/// Every handled trap gets the action its cause calls for: a user `ecall`
/// is the system call decoded from `a7` and `a0`..`a2` (write with file,
/// buffer and length from `a0`, `a1`, `a2`; exit with the low 32 bits of
/// `a0`; yield; get_time), a load or store fault and an illegal instruction
/// end the application, and the timer preempts it.
pub proof fn trap_actions(cause: TrapCause, cx: TrapContext)
    requires
        trap_handled(cause, cx),
    ensures
        cause == TrapCause::UserEnvCall && cx.x[17] == 64 ==> trap_action(cause, cx)
            == TrapAction::Syscall(SyscallRequest::Write { fd: cx.x[10], buf: cx.x[11], len: cx.x[12] }),
        cause == TrapCause::UserEnvCall && cx.x[17] == 93 ==> trap_action(cause, cx)
            == TrapAction::Syscall(SyscallRequest::Exit { exit_code: cx.x[10] as i32 }),
        cause == TrapCause::UserEnvCall && cx.x[17] == 124 ==> trap_action(cause, cx)
            == TrapAction::Syscall(SyscallRequest::Yield),
        cause == TrapCause::UserEnvCall && cx.x[17] == 169 ==> trap_action(cause, cx)
            == TrapAction::Syscall(SyscallRequest::GetTime),
        cause == TrapCause::StoreFault || cause == TrapCause::StorePageFault || cause
            == TrapCause::LoadFault || cause == TrapCause::LoadPageFault ==> trap_action(cause, cx)
            == TrapAction::Kill(KillReason::PageFault),
        cause == TrapCause::IllegalInstruction ==> trap_action(cause, cx) == TrapAction::Kill(
            KillReason::IllegalInstruction,
        ),
        cause == TrapCause::SupervisorTimer ==> trap_action(cause, cx) == TrapAction::Preempt,
        cause == TrapCause::UserEnvCall ==> trap_action(cause, cx) is Syscall,
{
    crate::syscall::syscall_decoding(cx.x[17], cx.x[10], cx.x[11], cx.x[12]);
}

} // verus!
