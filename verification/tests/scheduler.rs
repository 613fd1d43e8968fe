use os::mm::address::PhysPageNum;
use os::task::task::{HeapResize, TaskControlBlock, TaskStatus};
use os::task::{
    change_program_brk, current_trap_cx_ppn, current_user_token, exit_current_and_run_next,
    mark_current_exited, mark_current_suspended, run_first_task, run_next_task,
    suspend_current_and_run_next, TaskManager, TaskSwitch,
};

fn manager(n: usize) -> TaskManager {
    let mut v = Vec::new();
    for i in 0..n {
        v.push(TaskControlBlock::new(1000 + i, PhysPageNum(50 + i), 0x1000 * (i + 1), i, 0xdead));
    }
    TaskManager::new(v)
}

#[test]
fn new_manager_starts_at_first_task() {
    let m = manager(3);
    assert_eq!(m.num_app(), 3);
    assert_eq!(m.current_task(), 0);
    for i in 0..3 {
        assert_eq!(m.task(i).task_status, TaskStatus::Ready);
    }
}

#[test]
fn first_task_runs() {
    let mut m = manager(3);
    run_first_task(&mut m);
    assert_eq!(m.task(0).task_status, TaskStatus::Running);
    assert_eq!(m.task(1).task_status, TaskStatus::Ready);
    assert_eq!(current_user_token(&m), 1000);
    assert_eq!(current_trap_cx_ppn(&m), PhysPageNum(50));
}

#[test]
fn round_robin_order() {
    let mut m = manager(3);
    run_first_task(&mut m);
    assert_eq!(suspend_current_and_run_next(&mut m), TaskSwitch::Switch { from: 0, to: 1 });
    assert_eq!(m.current_task(), 1);
    assert_eq!(m.task(0).task_status, TaskStatus::Ready);
    assert_eq!(m.task(1).task_status, TaskStatus::Running);
    assert_eq!(suspend_current_and_run_next(&mut m), TaskSwitch::Switch { from: 1, to: 2 });
    assert_eq!(suspend_current_and_run_next(&mut m), TaskSwitch::Switch { from: 2, to: 0 });
    assert_eq!(current_user_token(&m), 1000);
}

#[test]
fn exited_tasks_are_skipped_and_last_exit_shuts_down() {
    let mut m = manager(3);
    run_first_task(&mut m);
    assert_eq!(exit_current_and_run_next(&mut m), TaskSwitch::Switch { from: 0, to: 1 });
    assert_eq!(m.task(0).task_status, TaskStatus::Exited);
    assert_eq!(suspend_current_and_run_next(&mut m), TaskSwitch::Switch { from: 1, to: 2 });
    assert_eq!(suspend_current_and_run_next(&mut m), TaskSwitch::Switch { from: 2, to: 1 });
    assert_eq!(exit_current_and_run_next(&mut m), TaskSwitch::Switch { from: 1, to: 2 });
    assert_eq!(exit_current_and_run_next(&mut m), TaskSwitch::Shutdown);
    for i in 0..3 {
        assert_eq!(m.task(i).task_status, TaskStatus::Exited);
    }
}

#[test]
fn lone_task_yields_to_itself() {
    let mut m = manager(1);
    run_first_task(&mut m);
    assert_eq!(suspend_current_and_run_next(&mut m), TaskSwitch::Switch { from: 0, to: 0 });
    assert_eq!(m.task(0).task_status, TaskStatus::Running);
    assert_eq!(exit_current_and_run_next(&mut m), TaskSwitch::Shutdown);
}

#[test]
fn marking_only_changes_current() {
    let mut m = manager(2);
    run_first_task(&mut m);
    mark_current_exited(&mut m);
    assert_eq!(m.task(0).task_status, TaskStatus::Exited);
    assert_eq!(m.task(1).task_status, TaskStatus::Ready);
    mark_current_suspended(&mut m);
    assert_eq!(m.task(0).task_status, TaskStatus::Ready);
    assert_eq!(run_next_task(&mut m), TaskSwitch::Switch { from: 0, to: 1 });
}

#[test]
fn run_next_with_no_tasks_shuts_down() {
    let mut m = manager(0);
    assert_eq!(run_next_task(&mut m), TaskSwitch::Shutdown);
}

#[test]
fn program_break_of_current_task() {
    let mut m = manager(2);
    run_first_task(&mut m);
    suspend_current_and_run_next(&mut m);
    let mut seen: Option<HeapResize> = None;
    let r = change_program_brk(&mut m, 0x100, |req: HeapResize| {
        seen = Some(req);
        true
    });
    assert_eq!(r, Some(0x2000));
    assert_eq!(seen, Some(HeapResize { shrink: false, heap_bottom: 0x2000, new_brk: 0x2100 }));
    assert_eq!(m.task(1).program_brk, 0x2100);
    assert_eq!(m.task(0).program_brk, 0x1000);
    let r = change_program_brk(&mut m, -0x200, |_req: HeapResize| true);
    assert_eq!(r, None);
    assert_eq!(m.task(1).program_brk, 0x2100);
    let r = m.change_current_program_brk(-0x100, |_req: HeapResize| false);
    assert_eq!(r, None);
    assert_eq!(m.task(1).program_brk, 0x2100);
}

fn running_count(m: &TaskManager) -> usize {
    (0..m.num_app()).filter(|&i| m.task(i).task_status == TaskStatus::Running).count()
}

#[test]
fn ready_task_runs_within_num_app_yields() {
    let mut m = manager(4);
    run_first_task(&mut m);
    mark_current_exited(&mut m);
    assert_eq!(run_next_task(&mut m), TaskSwitch::Switch { from: 0, to: 1 });
    for target in 1..4 {
        let mut reached = false;
        for _ in 0..4 {
            suspend_current_and_run_next(&mut m);
            if m.current_task() == target {
                reached = true;
                break;
            }
        }
        assert!(reached);
    }
}

#[test]
fn at_most_one_task_runs_and_it_is_current() {
    let mut m = manager(3);
    run_first_task(&mut m);
    assert_eq!(running_count(&m), 1);
    for step in 0..7 {
        let action = if step % 3 == 2 {
            exit_current_and_run_next(&mut m)
        } else {
            suspend_current_and_run_next(&mut m)
        };
        match action {
            TaskSwitch::Switch { to, .. } => {
                assert_eq!(running_count(&m), 1);
                assert_eq!(m.task(to).task_status, TaskStatus::Running);
                assert_eq!(m.current_task(), to);
            }
            TaskSwitch::Shutdown => {
                assert_eq!(running_count(&m), 0);
                break;
            }
        }
    }
}

#[test]
fn exited_task_never_runs_again() {
    let mut m = manager(3);
    run_first_task(&mut m);
    suspend_current_and_run_next(&mut m);
    exit_current_and_run_next(&mut m);
    assert_eq!(m.task(1).task_status, TaskStatus::Exited);
    for _ in 0..6 {
        suspend_current_and_run_next(&mut m);
        assert_eq!(m.task(1).task_status, TaskStatus::Exited);
        assert_ne!(m.current_task(), 1);
    }
}
