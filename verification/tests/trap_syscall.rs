use os::config::{CLOCK_FREQ, TRAMPOLINE};
use os::syscall::fs::sys_write;
use os::syscall::process::{sys_get_time, sys_sbrk, sys_yield};
use os::syscall::{syscall, syscall_supported, SyscallRequest};
use os::mm::address::PhysPageNum;
use os::task::task::{HeapResize, TaskControlBlock};
use os::task::{run_first_task, TaskManager, TaskSwitch};
use os::timer::{get_time_ms, get_time_us, set_next_trigger};
use os::trap::context::TrapContext;
use os::trap::{complete_syscall, restore_va, trap_handler, KillReason, TrapAction, TrapCause};

#[test]
fn syscall_decoding() {
    assert_eq!(syscall(64, [1, 0x1000, 12]), SyscallRequest::Write { fd: 1, buf: 0x1000, len: 12 });
    assert_eq!(syscall(93, [3, 0, 0]), SyscallRequest::Exit { exit_code: 3 });
    assert_eq!(syscall(93, [usize::MAX, 0, 0]), SyscallRequest::Exit { exit_code: -1 });
    assert_eq!(syscall(124, [0, 0, 0]), SyscallRequest::Yield);
    assert_eq!(syscall(169, [7, 8, 9]), SyscallRequest::GetTime);
}

#[test]
fn served_syscall_numbers() {
    for id in [64, 93, 124, 169] {
        assert!(syscall_supported(id));
    }
    for id in [0, 63, 65, 94, 125, 170, 214, usize::MAX] {
        assert!(!syscall_supported(id));
    }
}

#[test]
fn write_to_stdout_only() {
    assert_eq!(sys_write(1, 12), 12);
    assert_eq!(sys_write(1, 0), 0);
}

fn context() -> TrapContext {
    let mut cx = TrapContext::app_init_context(0x1000, 0x8000, 0);
    cx.x[17] = 64;
    cx.x[10] = 1;
    cx.x[11] = 0x2000;
    cx.x[12] = 5;
    cx
}

#[test]
fn ecall_advances_sepc_and_decodes_yield_and_time() {
    let mut y = context();
    y.x[17] = 124;
    assert_eq!(trap_handler(TrapCause::UserEnvCall, &mut y), TrapAction::Syscall(SyscallRequest::Yield));
    assert_eq!(y.sepc, 0x1004);
    let mut g = context();
    g.x[17] = 169;
    assert_eq!(trap_handler(TrapCause::UserEnvCall, &mut g), TrapAction::Syscall(SyscallRequest::GetTime));
}

#[test]
fn ecall_advances_sepc_and_decodes() {
    let mut cx = context();
    let a = trap_handler(TrapCause::UserEnvCall, &mut cx);
    assert_eq!(a, TrapAction::Syscall(SyscallRequest::Write { fd: 1, buf: 0x2000, len: 5 }));
    assert_eq!(cx.sepc, 0x1004);
    complete_syscall(&mut cx, -1);
    assert_eq!(cx.x[10], usize::MAX);
    complete_syscall(&mut cx, 5);
    assert_eq!(cx.x[10], 5);
}

#[test]
fn faults_kill_and_timer_preempts() {
    for cause in [TrapCause::StoreFault, TrapCause::StorePageFault, TrapCause::LoadFault, TrapCause::LoadPageFault] {
        let mut cx = context();
        assert_eq!(trap_handler(cause, &mut cx), TrapAction::Kill(KillReason::PageFault));
        assert_eq!(cx.sepc, 0x1000);
    }
    let mut cx = context();
    assert_eq!(trap_handler(TrapCause::IllegalInstruction, &mut cx), TrapAction::Kill(KillReason::IllegalInstruction));
    assert_eq!(trap_handler(TrapCause::SupervisorTimer, &mut cx), TrapAction::Preempt);
    assert_eq!(cx.sepc, 0x1000);
}

#[test]
fn app_context_starts_in_user_mode() {
    let cx = TrapContext::app_init_context(0x1_0000, 0x2_0000, 0x122);
    assert_eq!(cx.sepc, 0x1_0000);
    assert_eq!(cx.x[2], 0x2_0000);
    for i in 0..32 {
        if i != 2 {
            assert_eq!(cx.x[i], 0);
        }
    }
    assert_eq!(cx.sstatus, 0x22);
    let wide = TrapContext::app_init_context(0, 0, 0x8000_0003_0000_0108);
    assert_eq!(wide.sstatus, 0x8000_0003_0000_0000);
    let mut cx2 = cx;
    cx2.set_sp(7);
    assert_eq!(cx2.x[2], 7);
}

#[test]
fn time_conversions() {
    assert_eq!(get_time_ms(CLOCK_FREQ), 1000);
    assert_eq!(get_time_ms(1249), 0);
    assert_eq!(get_time_ms(2500), 2);
    assert_eq!(get_time_us(77), 77);
    assert_eq!(sys_get_time(12_500), 10);
    assert_eq!(sys_get_time(usize::MAX), (usize::MAX / 1250) as isize);
    assert_eq!(set_next_trigger(100), 12_600);
}

#[test]
fn restore_address_in_trampoline() {
    assert_eq!(restore_va(0x8020_0000, 0x8020_0060), TRAMPOLINE + 0x60);
    assert_eq!(restore_va(0x8020_0000, 0x8020_0000), TRAMPOLINE);
}

fn manager() -> TaskManager {
    let v = vec![
        TaskControlBlock::new(1, PhysPageNum(1), 0x1000, 0, 0),
        TaskControlBlock::new(2, PhysPageNum(2), 0x3000, 1, 0),
    ];
    TaskManager::new(v)
}

#[test]
fn yield_returns_zero_and_switches() {
    let mut m = manager();
    run_first_task(&mut m);
    assert_eq!(sys_yield(&mut m), (0, TaskSwitch::Switch { from: 0, to: 1 }));
}

#[test]
fn sbrk_returns_old_break_or_minus_one() {
    let mut m = manager();
    run_first_task(&mut m);
    assert_eq!(sys_sbrk(&mut m, 0x100, |_r: HeapResize| true), 0x1000);
    assert_eq!(sys_sbrk(&mut m, -0x100, |_r: HeapResize| true), 0x1100);
    assert_eq!(sys_sbrk(&mut m, -1, |_r: HeapResize| true), -1);
    assert_eq!(sys_sbrk(&mut m, 8, |_r: HeapResize| false), -1);
    assert_eq!(m.task(0).program_brk, 0x1000);
}
