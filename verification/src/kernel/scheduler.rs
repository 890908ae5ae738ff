//! Scheduler bookkeeping: the tasks it knows of and round-robin choice of
//! the task that runs next.

use vstd::prelude::*;

verus! {

/// Where a task is in its life.
#[derive(Debug, Clone, Copy, PartialEq, Eq, Structural)]
pub enum TaskState {
    Ready,
    Running,
    Blocked,
    Dead,
}

/// A task as the scheduler sees it.
pub struct Task {
    pub id: usize,
    pub state: TaskState,
    pub name: &'static str,
}

/// The scheduler's state: how many tasks it knows of, and the index
/// (`0..task_count`) of the task that runs now.
pub struct Scheduler {
    pub task_count: usize,
    pub current: usize,
}

/// The task that runs after `current` in round-robin order over `count`
/// tasks; with no tasks there is nothing to switch to.
pub open spec fn round_robin_next(current: usize, count: usize) -> usize {
    if count == 0 {
        current
    } else if current + 1 >= count {
        0
    } else {
        (current + 1) as usize
    }
}

/// The task that runs after `k` scheduling steps from `current`.
pub open spec fn after_steps(current: usize, count: usize, k: nat) -> usize
    decreases k,
{
    if k == 0 {
        current
    } else {
        round_robin_next(after_steps(current, count, (k - 1) as nat), count)
    }
}

/// Bring the scheduler up: the boot task is the only task, and it runs.
pub fn init(scheduler: &mut Scheduler)
    ensures
        final(scheduler).task_count == 1,
        final(scheduler).current == 0,
{
    scheduler.task_count = 1;
    scheduler.current = 0;
}

/// One preemption step: pick the next task round-robin and make it the
/// running one; returns its index.
pub fn schedule(scheduler: &mut Scheduler) -> (next: usize)
    ensures
        next == round_robin_next(old(scheduler).current, old(scheduler).task_count),
        final(scheduler).current == next,
        final(scheduler).task_count == old(scheduler).task_count,
{
    let count = scheduler.task_count;
    let current = scheduler.current;
    let next = if count == 0 {
        current
    } else if current >= count - 1 {
        0
    } else {
        current + 1
    };
    scheduler.current = next;
    next
}

/// Round-robin steps walk the tasks in a cycle: after `k` steps from a
/// task below `count`, the running task is `(current + k) % count`.
pub proof fn lemma_after_steps(current: usize, count: usize, k: nat)
    requires
        current < count,
    ensures
        after_steps(current, count, k) == (current + k) % (count as int),
    decreases k,
{
    if k > 0 {
        lemma_after_steps(current, count, (k - 1) as nat);
        let prev = after_steps(current, count, (k - 1) as nat);
        assert(after_steps(current, count, k) == round_robin_next(prev, count));
        let c = count as int;
        let a = current + k - 1;
        assert(prev == a % c);
        assert(0 <= a % c < c) by (nonlinear_arith)
            requires
                c > 0,
                a >= 0,
        ;
        if a % c + 1 >= c {
            assert((a + 1) % c == 0) by (nonlinear_arith)
                requires
                    a % c == c - 1,
                    c > 0,
            ;
        } else {
            assert((a + 1) % c == a % c + 1) by (nonlinear_arith)
                requires
                    0 <= a % c < c - 1,
                    c > 0,
            ;
        }
    } else {
        assert((current as int) % (count as int) == current) by (nonlinear_arith)
            requires
                0 <= current < count,
        ;
    }
}

/// No task starves: within `count` steps from any running task, every task
/// gets its turn.
pub proof fn lemma_round_robin_fair(current: usize, count: usize, task: usize)
    requires
        current < count,
        task < count,
    ensures
        exists|k: nat| k < count && #[trigger] after_steps(current, count, k) == task,
{
    let c = count as int;
    let k: int = if task >= current {
        task - current
    } else {
        task + c - current
    };
    lemma_after_steps(current, count, k as nat);
    assert((current + k) % c == task) by (nonlinear_arith)
        requires
            0 <= task < c,
            current + k == task || current + k == task + c,
    ;
}

} // verus!
