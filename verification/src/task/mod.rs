//! Tasks: their contexts, their control blocks and the round-robin
//! scheduler that picks which one runs.

pub mod context;
pub mod task;

use vstd::prelude::*;
use vstd::arithmetic::div_mod::{lemma_small_mod, lemma_mod_add_multiples_vanish};
use crate::mm::address::PhysPageNum;
use crate::task::task::{TaskControlBlock, TaskStatus, HeapResize};

verus! {

/// What the scheduler asks the caller to do next: save the running task's
/// registers into the context of task `from` and resume task `to`, or shut
/// the machine down because no task is left to run.
#[derive(Clone, Copy, Debug, PartialEq, Eq, Structural)]
pub enum TaskSwitch {
    Switch { from: usize, to: usize },
    Shutdown,
}

/// The scheduler's state, as plain values.
pub struct TaskManagerView {
    pub num_app: usize,
    pub tasks: Seq<TaskControlBlock>,
    pub current_task: usize,
}

/// The index `k` steps after `current` going round `n` tasks.
pub open spec fn ring_index(current: int, k: int, n: int) -> int {
    (current + k) % n
}

/// Going round: `k` steps after `current`, for `1 <= k <= n`, is the index
/// reached by adding `k` and wrapping once at most.
pub proof fn ring_index_value(current: int, k: int, n: int)
    requires
        0 <= current < n,
        1 <= k <= n,
    ensures
        ring_index(current, k, n) == if current + k < n { current + k } else { current + k - n },
        0 <= ring_index(current, k, n) < n,
{
    if current + k < n {
        lemma_small_mod((current + k) as nat, n as nat);
    } else {
        let b = current + k - n;
        lemma_mod_add_multiples_vanish(b, n);
        lemma_small_mod(b as nat, n as nat);
    }
}

/// Every task is reached by going round from `current`: task `i` is
/// `ring_steps(current, i, n)` steps after it.
pub open spec fn ring_steps(current: int, i: int, n: int) -> int {
    if i > current { i - current } else { i + n - current }
}

/// Going `ring_steps(current, i, n)` steps round from `current` reaches `i`.
pub proof fn ring_steps_reach(current: int, i: int, n: int)
    requires
        0 <= current < n,
        0 <= i < n,
    ensures
        1 <= ring_steps(current, i, n) <= n,
        ring_index(current, ring_steps(current, i, n), n) == i,
{
    ring_index_value(current, ring_steps(current, i, n), n);
}

impl TaskManagerView {
    /// The scheduler's invariant: one block per application, a current
    /// task among them (the first one while there is none), and every
    /// block's heap in order.
    pub open spec fn wf(self) -> bool {
        &&& self.tasks.len() == self.num_app
        &&& (self.current_task < self.num_app || (self.num_app == 0 && self.current_task == 0))
        &&& forall|i: int| 0 <= i < self.num_app ==> #[trigger] self.tasks[i].wf()
    }

    /// Whether the task `k` steps after the current one is ready.
    pub open spec fn ready_at_step(self, k: int) -> bool {
        self.tasks[ring_index(self.current_task as int, k, self.num_app as int)].task_status
            == TaskStatus::Ready
    }

    /// The first ready task found going round from the step `k` after the
    /// current task up to the current task itself (step `num_app`).
    pub open spec fn first_ready_from(self, k: int) -> Option<usize>
        decreases self.num_app + 1 - k,
    {
        if k < 1 || k > self.num_app {
            None
        } else if self.ready_at_step(k) {
            Some(ring_index(self.current_task as int, k, self.num_app as int) as usize)
        } else {
            self.first_ready_from(k + 1)
        }
    }

    /// The task that runs next: the first ready one after the current task,
    /// going round, the current task itself last.
    pub open spec fn next_ready(self) -> Option<usize> {
        self.first_ready_from(1)
    }

    /// The state with the status of task `i` set to `status`.
    pub open spec fn set_status(self, i: int, status: TaskStatus) -> Self {
        TaskManagerView {
            num_app: self.num_app,
            tasks: self.tasks.update(i, TaskControlBlock { task_status: status, ..self.tasks[i] }),
            current_task: self.current_task,
        }
    }

    /// The state with the current task's status set to `status`.
    pub open spec fn mark_current(self, status: TaskStatus) -> Self {
        self.set_status(self.current_task as int, status)
    }

    /// What running the next task asks for, and the state it leaves: the
    /// next ready task becomes running and current; with none ready the
    /// machine shuts down and nothing changes.
    pub open spec fn run_next(self) -> (TaskSwitch, Self) {
        match self.next_ready() {
            Some(next) => {
                let s = self.set_status(next as int, TaskStatus::Running);
                (
                    TaskSwitch::Switch { from: self.current_task, to: next },
                    TaskManagerView { current_task: next, ..s },
                )
            },
            None => (TaskSwitch::Shutdown, self),
        }
    }

    /// The state after the current task yields and the next task runs.
    pub open spec fn yield_step(self) -> Self {
        self.mark_current(TaskStatus::Ready).run_next().1
    }

    /// The state after `k` yields in a row.
    pub open spec fn yield_steps(self, k: nat) -> Self
        decreases k,
    {
        if k == 0 {
            self
        } else {
            self.yield_step().yield_steps((k - 1) as nat)
        }
    }

    /// At most one task is running, and it is the current one.
    pub open spec fn only_current_runs(self) -> bool {
        forall|i: int|
            0 <= i < self.num_app && #[trigger] self.tasks[i].task_status == TaskStatus::Running
                ==> i == self.current_task
    }
}

/// Searching from step `k` finds the first ready task at a step `>= k`, or
/// `None` when none of those steps is ready.
pub proof fn first_ready_from_spec(s: TaskManagerView, k: int)
    requires
        s.wf(),
        1 <= k,
    ensures
        match s.first_ready_from(k) {
            Some(id) => exists|j: int|
                k <= j <= s.num_app && #[trigger] s.ready_at_step(j) && id == ring_index(
                    s.current_task as int,
                    j,
                    s.num_app as int,
                ) && forall|l: int| k <= l < j ==> !#[trigger] s.ready_at_step(l),
            None => forall|j: int| k <= j <= s.num_app ==> !#[trigger] s.ready_at_step(j),
        },
    decreases s.num_app + 1 - k,
{
    if k > s.num_app {
    } else if s.ready_at_step(k) {
        assert(s.ready_at_step(k));
    } else {
        first_ready_from_spec(s, k + 1);
        match s.first_ready_from(k + 1) {
            Some(id) => {
                let j = choose|j: int|
                    k + 1 <= j <= s.num_app && #[trigger] s.ready_at_step(j) && id == ring_index(
                        s.current_task as int,
                        j,
                        s.num_app as int,
                    ) && forall|l: int| k + 1 <= l < j ==> !#[trigger] s.ready_at_step(l);
                assert forall|l: int| k <= l < j implies !#[trigger] s.ready_at_step(l) by {
                    if l > k {
                        assert(k + 1 <= l < j);
                    }
                }
            },
            None => {},
        }
    }
}

/// The next task is a ready task, found as the first ready one going round
/// from the current task; there is none exactly when no task is ready.
pub proof fn next_ready_is_first_ready(s: TaskManagerView)
    requires
        s.wf(),
    ensures
        match s.next_ready() {
            Some(id) => id < s.num_app && s.tasks[id as int].task_status == TaskStatus::Ready
                && exists|j: int|
                1 <= j <= s.num_app && id == ring_index(s.current_task as int, j, s.num_app as int)
                    && forall|l: int| 1 <= l < j ==> !#[trigger] s.ready_at_step(l),
            None => forall|i: int|
                0 <= i < s.num_app ==> #[trigger] s.tasks[i].task_status != TaskStatus::Ready,
        },
{
    first_ready_from_spec(s, 1);
    match s.next_ready() {
        Some(id) => {
            let j = choose|j: int|
                1 <= j <= s.num_app && #[trigger] s.ready_at_step(j) && id == ring_index(
                    s.current_task as int,
                    j,
                    s.num_app as int,
                ) && forall|l: int| 1 <= l < j ==> !#[trigger] s.ready_at_step(l);
            ring_index_value(s.current_task as int, j, s.num_app as int);
        },
        None => {
            assert forall|i: int| 0 <= i < s.num_app implies #[trigger] s.tasks[i].task_status
                != TaskStatus::Ready by {
                ring_steps_reach(s.current_task as int, i, s.num_app as int);
                assert(!s.ready_at_step(ring_steps(s.current_task as int, i, s.num_app as int)));
            }
        },
    }
}

/// Setting a task's status keeps the scheduler's invariant.
pub proof fn set_status_keeps_wf(s: TaskManagerView, i: int, status: TaskStatus)
    requires
        s.wf(),
        0 <= i < s.num_app,
    ensures
        s.set_status(i, status).wf(),
        s.set_status(i, status).num_app == s.num_app,
        s.set_status(i, status).current_task == s.current_task,
        s.set_status(i, status).tasks[i].task_status == status,
        forall|j: int|
            0 <= j < s.num_app && j != i ==> #[trigger] s.set_status(i, status).tasks[j] == s.tasks[j],
{
    let t = s.set_status(i, status);
    assert forall|j: int| 0 <= j < t.num_app implies #[trigger] t.tasks[j].wf() by {
        assert(s.tasks[j].wf());
    }
}

/// Running the next task either switches from the current task to a ready
/// task, which becomes running and current while every other task and every
/// other field of that task stay as they were, or, when no task is ready,
/// shuts down and changes nothing.
pub proof fn run_next_effect(s: TaskManagerView)
    requires
        s.wf(),
    ensures
        match s.run_next() {
            (TaskSwitch::Switch { from, to }, t) => {
                &&& from == s.current_task
                &&& to < s.num_app
                &&& s.tasks[to as int].task_status == TaskStatus::Ready
                &&& t.current_task == to
                &&& t.num_app == s.num_app
                &&& t.tasks.len() == s.tasks.len()
                &&& t.tasks[to as int] == (TaskControlBlock {
                    task_status: TaskStatus::Running,
                    ..s.tasks[to as int]
                })
                &&& forall|i: int| 0 <= i < s.num_app && i != to ==> #[trigger] t.tasks[i] == s.tasks[i]
            },
            (TaskSwitch::Shutdown, t) => {
                &&& t == s
                &&& forall|i: int| 0 <= i < s.num_app ==> #[trigger] s.tasks[i].task_status != TaskStatus::Ready
            },
        },
{
    next_ready_is_first_ready(s);
    if let Some(next) = s.next_ready() {
        set_status_keeps_wf(s, next as int, TaskStatus::Running);
    }
}

/// Yielding never shuts the machine down: the task that gives up the
/// processor is itself ready, so some task always runs next.
pub proof fn suspend_always_switches(s: TaskManagerView)
    requires
        s.wf(),
        s.num_app > 0,
    ensures
        s.mark_current(TaskStatus::Ready).run_next().0 is Switch,
{
    let t = s.mark_current(TaskStatus::Ready);
    set_status_keeps_wf(s, s.current_task as int, TaskStatus::Ready);
    next_ready_is_first_ready(t);
    if t.next_ready() is None {
        assert(t.tasks[s.current_task as int].task_status == TaskStatus::Ready);
    }
}

/// A task that yields while no other task is ready is resumed at once.
pub proof fn lone_task_resumes(s: TaskManagerView)
    requires
        s.wf(),
        s.num_app > 0,
        forall|i: int|
            0 <= i < s.num_app && i != s.current_task ==> #[trigger] s.tasks[i].task_status
                != TaskStatus::Ready,
    ensures
        s.mark_current(TaskStatus::Ready).run_next().0 == (TaskSwitch::Switch {
            from: s.current_task,
            to: s.current_task,
        }),
{
    let t = s.mark_current(TaskStatus::Ready);
    set_status_keeps_wf(s, s.current_task as int, TaskStatus::Ready);
    suspend_always_switches(s);
    next_ready_is_first_ready(t);
    let id = t.next_ready().unwrap();
    if id != s.current_task {
        assert(t.tasks[id as int] == s.tasks[id as int]);
    }
}

/// Exiting shuts the machine down exactly when no other task is ready.
pub proof fn exit_shuts_down_iff_none_ready(s: TaskManagerView)
    requires
        s.wf(),
        s.num_app > 0,
    ensures
        (s.mark_current(TaskStatus::Exited).run_next().0 == TaskSwitch::Shutdown) <==> (forall|i: int|
            0 <= i < s.num_app && i != s.current_task ==> #[trigger] s.tasks[i].task_status
                != TaskStatus::Ready),
{
    let t = s.mark_current(TaskStatus::Exited);
    set_status_keeps_wf(s, s.current_task as int, TaskStatus::Exited);
    next_ready_is_first_ready(t);
    match t.next_ready() {
        Some(id) => {
            if id == s.current_task {
                assert(t.tasks[id as int].task_status == TaskStatus::Exited);
            }
            assert(t.tasks[id as int] == s.tasks[id as int]);
        },
        None => {
            assert forall|i: int|
                0 <= i < s.num_app && i != s.current_task implies #[trigger] s.tasks[i].task_status
                != TaskStatus::Ready by {
                assert(t.tasks[i] == s.tasks[i]);
            }
        },
    }
}

/// Each scheduling step (the current task yields or exits, then the next
/// task runs) keeps at most one task running: the current one.
pub proof fn switching_keeps_one_running(s: TaskManagerView, status: TaskStatus)
    requires
        s.wf(),
        s.num_app > 0,
        s.only_current_runs(),
        status == TaskStatus::Ready || status == TaskStatus::Exited,
    ensures
        s.mark_current(status).run_next().1.wf(),
        s.mark_current(status).run_next().1.only_current_runs(),
{
    let t = s.mark_current(status);
    set_status_keeps_wf(s, s.current_task as int, status);
    next_ready_is_first_ready(t);
    assert(t.only_current_runs()) by {
        assert forall|i: int|
            0 <= i < t.num_app && #[trigger] t.tasks[i].task_status == TaskStatus::Running implies i
            == t.current_task by {
            if i != s.current_task {
                assert(t.tasks[i] == s.tasks[i]);
            }
        }
    }
    match t.next_ready() {
        Some(next) => {
            set_status_keeps_wf(t, next as int, TaskStatus::Running);
            let u = t.run_next().1;
            assert forall|i: int|
                0 <= i < u.num_app && #[trigger] u.tasks[i].task_status == TaskStatus::Running implies i
                == u.current_task by {
                if i != next {
                    assert(u.tasks[i] == t.tasks[i]);
                    assert(t.tasks[i].task_status == TaskStatus::Running);
                    assert(t.tasks[t.current_task as int].task_status == status);
                }
            }
        },
        None => {},
    }
}

/// An exited task stays exited across a scheduling step: only a ready task
/// is ever made running.
pub proof fn exited_stays_exited(s: TaskManagerView, status: TaskStatus, i: int)
    requires
        s.wf(),
        s.num_app > 0,
        0 <= i < s.num_app,
        s.mark_current(status).tasks[i].task_status == TaskStatus::Exited,
    ensures
        s.mark_current(status).run_next().1.tasks[i].task_status == TaskStatus::Exited,
{
    let t = s.mark_current(status);
    set_status_keeps_wf(s, s.current_task as int, status);
    next_ready_is_first_ready(t);
    match t.next_ready() {
        Some(next) => {
            set_status_keeps_wf(t, next as int, TaskStatus::Running);
        },
        None => {},
    }
}

/// Starting the first task while no task runs leaves it the only one
/// running, and it is current.
pub proof fn first_task_runs_alone(s: TaskManagerView)
    requires
        s.wf(),
        s.num_app > 0,
        s.current_task == 0,
        forall|i: int| 0 <= i < s.num_app ==> #[trigger] s.tasks[i].task_status != TaskStatus::Running,
    ensures
        s.set_status(0, TaskStatus::Running).only_current_runs(),
{
    set_status_keeps_wf(s, 0, TaskStatus::Running);
}

/// Round robin is fair: when every task keeps yielding, a ready task
/// becomes the current one within as many yields as it stands steps away
/// from the current task going round, so within `num_app` yields.
pub proof fn round_robin_reaches_ready_task(s: TaskManagerView, i: int)
    requires
        s.wf(),
        s.num_app > 0,
        0 <= i < s.num_app,
        s.tasks[i].task_status == TaskStatus::Ready,
    ensures
        exists|k: nat|
            1 <= k <= ring_steps(s.current_task as int, i, s.num_app as int) && #[trigger] s.yield_steps(
                k,
            ).current_task == i,
    decreases ring_steps(s.current_task as int, i, s.num_app as int),
{
    let n = s.num_app as int;
    let cur = s.current_task as int;
    let d = ring_steps(cur, i, n);
    let t = s.mark_current(TaskStatus::Ready);
    set_status_keeps_wf(s, cur, TaskStatus::Ready);
    ring_steps_reach(cur, i, n);
    assert(t.tasks[i].task_status == TaskStatus::Ready);
    assert(t.ready_at_step(d));
    next_ready_is_first_ready(t);
    let next = t.next_ready().unwrap();
    let j = choose|j: int|
        1 <= j <= t.num_app && next == ring_index(t.current_task as int, j, t.num_app as int)
            && forall|l: int| 1 <= l < j ==> !#[trigger] t.ready_at_step(l);
    assert(j <= d);
    set_status_keeps_wf(t, next as int, TaskStatus::Running);
    let s1 = s.yield_step();
    assert(s1.current_task == next);
    assert(s.yield_steps(1) == s1.yield_steps(0));
    if next as int == i {
        assert(s.yield_steps(1).current_task == i);
    } else {
        ring_index_value(cur, j, n);
        ring_index_value(cur, d, n);
        assert(j < d);
        assert(ring_steps(next as int, i, n) == d - j);
        assert(s1.tasks[i] == t.tasks[i]);
        assert(s1.wf());
        round_robin_reaches_ready_task(s1, i);
        let k1 = choose|k1: nat|
            1 <= k1 <= ring_steps(s1.current_task as int, i, n) && #[trigger] s1.yield_steps(k1).current_task
                == i;
        assert(s.yield_steps(k1 + 1) == s1.yield_steps(k1));
    }
}

/// Round-robin scheduler over the tasks of all applications.
pub struct TaskManager {
    num_app: usize,
    tasks: Vec<TaskControlBlock>,
    current_task: usize,
}

impl View for TaskManager {
    type V = TaskManagerView;

    closed spec fn view(&self) -> TaskManagerView {
        TaskManagerView { num_app: self.num_app, tasks: self.tasks@, current_task: self.current_task }
    }
}

impl TaskManager {
    /// A scheduler over `tasks`, one per application, with the first task
    /// current.
    pub fn new(tasks: Vec<TaskControlBlock>) -> (r: Self)
        requires
            forall|i: int| 0 <= i < tasks@.len() ==> #[trigger] tasks@[i].wf(),
        ensures
            r@.num_app == tasks@.len(),
            r@.tasks == tasks@,
            r@.current_task == 0,
            r@.wf(),
    {
        let num_app = tasks.len();
        TaskManager { num_app, tasks, current_task: 0 }
    }

    /// The number of tasks.
    pub fn num_app(&self) -> (r: usize)
        ensures
            r == self@.num_app,
    {
        self.num_app
    }

    /// The index of the current task.
    pub fn current_task(&self) -> (r: usize)
        ensures
            r == self@.current_task,
    {
        self.current_task
    }

    /// The control block of task `i`.
    pub fn task(&self, i: usize) -> (r: &TaskControlBlock)
        requires
            self@.wf(),
            i < self@.num_app,
        ensures
            *r == self@.tasks[i as int],
    {
        &self.tasks[i]
    }

    fn mark_current_suspended(&mut self)
        requires
            old(self)@.wf(),
            old(self)@.num_app > 0,
        ensures
            final(self)@ == old(self)@.mark_current(TaskStatus::Ready),
            final(self)@.wf(),
    {
        let current = self.current_task;
        self.tasks[current].task_status = TaskStatus::Ready;
    }

    fn mark_current_exited(&mut self)
        requires
            old(self)@.wf(),
            old(self)@.num_app > 0,
        ensures
            final(self)@ == old(self)@.mark_current(TaskStatus::Exited),
            final(self)@.wf(),
    {
        let current = self.current_task;
        self.tasks[current].task_status = TaskStatus::Exited;
    }

    /// The next task to run: the first ready task after the current one,
    /// going round, the current task itself last.
    fn find_next_task(&self) -> (r: Option<usize>)
        requires
            self@.wf(),
        ensures
            r == self@.next_ready(),
    {
        let n = self.num_app;
        let current = self.current_task;
        let mut j: usize = 0;
        while j < n
            invariant
                self@.wf(),
                n == self@.num_app,
                current == self@.current_task,
                j <= n,
                self@.first_ready_from(j + 1) == self@.next_ready(),
            decreases n - j,
        {
            let k: usize = j + 1;
            proof {
                ring_index_value(current as int, k as int, n as int);
            }
            let id: usize = if k < n - current {
                current + k
            } else {
                k - (n - current)
            };
            if self.tasks[id].task_status == TaskStatus::Ready {
                return Some(id);
            }
            j = k;
        }
        None
    }

    fn get_current_token(&self) -> (r: usize)
        requires
            self@.wf(),
            self@.num_app > 0,
        ensures
            r == self@.tasks[self@.current_task as int].user_token,
    {
        self.tasks[self.current_task].get_user_token()
    }

    fn get_current_trap_cx_ppn(&self) -> (r: PhysPageNum)
        requires
            self@.wf(),
            self@.num_app > 0,
        ensures
            r == self@.tasks[self@.current_task as int].trap_cx_ppn,
    {
        self.tasks[self.current_task].trap_cx_ppn
    }

    fn run_next_task(&mut self) -> (r: TaskSwitch)
        requires
            old(self)@.wf(),
        ensures
            (r, final(self)@) == old(self)@.run_next(),
            final(self)@.wf(),
    {
        proof {
            next_ready_is_first_ready(self@);
        }
        if let Some(next) = self.find_next_task() {
            let current = self.current_task;
            self.tasks[next].task_status = TaskStatus::Running;
            self.current_task = next;
            assert forall|i: int| 0 <= i < self@.num_app implies #[trigger] self@.tasks[i].wf() by {
                assert(old(self)@.tasks[i].wf());
            }
            TaskSwitch::Switch { from: current, to: next }
        } else {
            TaskSwitch::Shutdown
        }
    }

    fn run_first_task(&mut self)
        requires
            old(self)@.wf(),
            old(self)@.num_app > 0,
        ensures
            final(self)@ == old(self)@.set_status(0, TaskStatus::Running),
            final(self)@.wf(),
    {
        self.tasks[0].task_status = TaskStatus::Running;
        assert forall|i: int| 0 <= i < self@.num_app implies #[trigger] self@.tasks[i].wf() by {
            assert(old(self)@.tasks[i].wf());
        }
    }

    /// Moves the current task's program break by `size` bytes, asking
    /// `resize` to resize its heap area; see
    /// `TaskControlBlock::change_program_brk`.
    pub fn change_current_program_brk<F: FnOnce(HeapResize) -> bool>(
        &mut self,
        size: i32,
        resize: F,
    ) -> (r: Option<usize>)
        requires
            old(self)@.wf(),
            old(self)@.num_app > 0,
            old(self)@.tasks[old(self)@.current_task as int].program_brk + size <= isize::MAX,
            old(self)@.tasks[old(self)@.current_task as int].brk_request(size) matches Some(req)
                ==> call_requires(resize, (req,)),
        ensures
            old(self)@.tasks[old(self)@.current_task as int].brk_request(size) matches Some(req)
                ==> call_ensures(resize, (req,), r is Some),
            r == old(self)@.tasks[old(self)@.current_task as int].brk_outcome(size, r is Some).0,
            final(self)@ == (TaskManagerView {
                tasks: old(self)@.tasks.update(
                    old(self)@.current_task as int,
                    old(self)@.tasks[old(self)@.current_task as int].brk_outcome(size, r is Some).1,
                ),
                ..old(self)@
            }),
            final(self)@.wf(),
    {
        let cur = self.current_task;
        let mut t = self.tasks[cur];
        let r = t.change_program_brk(size, resize);
        self.tasks.set(cur, t);
        r
    }
}

/// Marks the current task ready to run again.
pub fn mark_current_suspended(manager: &mut TaskManager)
    requires
        old(manager)@.wf(),
        old(manager)@.num_app > 0,
    ensures
        final(manager)@ == old(manager)@.mark_current(TaskStatus::Ready),
        final(manager)@.wf(),
{
    manager.mark_current_suspended();
}

/// Marks the current task exited.
pub fn mark_current_exited(manager: &mut TaskManager)
    requires
        old(manager)@.wf(),
        old(manager)@.num_app > 0,
    ensures
        final(manager)@ == old(manager)@.mark_current(TaskStatus::Exited),
        final(manager)@.wf(),
{
    manager.mark_current_exited();
}

/// Makes the next ready task running and current, and says which switch to
/// make; with no task ready it asks for a shutdown.
pub fn run_next_task(manager: &mut TaskManager) -> (r: TaskSwitch)
    requires
        old(manager)@.wf(),
    ensures
        (r, final(manager)@) == old(manager)@.run_next(),
        final(manager)@.wf(),
{
    manager.run_next_task()
}

/// Makes the first task running; the caller then switches to it.
pub fn run_first_task(manager: &mut TaskManager)
    requires
        old(manager)@.wf(),
        old(manager)@.num_app > 0,
    ensures
        final(manager)@ == old(manager)@.set_status(0, TaskStatus::Running),
        final(manager)@.wf(),
{
    manager.run_first_task();
}

/// The current task gives up the processor: it becomes ready and the next
/// ready task (possibly itself) runs.
pub fn suspend_current_and_run_next(manager: &mut TaskManager) -> (r: TaskSwitch)
    requires
        old(manager)@.wf(),
        old(manager)@.num_app > 0,
    ensures
        (r, final(manager)@) == old(manager)@.mark_current(TaskStatus::Ready).run_next(),
        final(manager)@.wf(),
{
    mark_current_suspended(manager);
    run_next_task(manager)
}

/// The current task ends: it becomes exited and the next ready task runs,
/// or the machine shuts down when none is left.
pub fn exit_current_and_run_next(manager: &mut TaskManager) -> (r: TaskSwitch)
    requires
        old(manager)@.wf(),
        old(manager)@.num_app > 0,
    ensures
        (r, final(manager)@) == old(manager)@.mark_current(TaskStatus::Exited).run_next(),
        final(manager)@.wf(),
{
    mark_current_exited(manager);
    run_next_task(manager)
}

/// The address-space token of the current task.
pub fn current_user_token(manager: &TaskManager) -> (r: usize)
    requires
        manager@.wf(),
        manager@.num_app > 0,
    ensures
        r == manager@.tasks[manager@.current_task as int].user_token,
{
    manager.get_current_token()
}

/// The page that holds the current task's trap context.
pub fn current_trap_cx_ppn(manager: &TaskManager) -> (r: PhysPageNum)
    requires
        manager@.wf(),
        manager@.num_app > 0,
    ensures
        r == manager@.tasks[manager@.current_task as int].trap_cx_ppn,
{
    manager.get_current_trap_cx_ppn()
}

/// Moves the current task's program break; see
/// `TaskManager::change_current_program_brk`.
pub fn change_program_brk<F: FnOnce(HeapResize) -> bool>(
    manager: &mut TaskManager,
    size: i32,
    resize: F,
) -> (r: Option<usize>)
    requires
        old(manager)@.wf(),
        old(manager)@.num_app > 0,
        old(manager)@.tasks[old(manager)@.current_task as int].program_brk + size <= isize::MAX,
        old(manager)@.tasks[old(manager)@.current_task as int].brk_request(size) matches Some(req)
            ==> call_requires(resize, (req,)),
    ensures
        old(manager)@.tasks[old(manager)@.current_task as int].brk_request(size) matches Some(req)
            ==> call_ensures(resize, (req,), r is Some),
        r == old(manager)@.tasks[old(manager)@.current_task as int].brk_outcome(size, r is Some).0,
        final(manager)@ == (TaskManagerView {
            tasks: old(manager)@.tasks.update(
                old(manager)@.current_task as int,
                old(manager)@.tasks[old(manager)@.current_task as int].brk_outcome(size, r is Some).1,
            ),
            ..old(manager)@
        }),
        final(manager)@.wf(),
{
    manager.change_current_program_brk(size, resize)
}

} // verus!
