//! Task Control Block (TCB).

use vstd::prelude::*;

verus! {

/// Kernel stack size per task (8 KiB).
pub const KERNEL_STACK_SIZE: usize = 8192;

/// Where a task is in its life.
#[derive(Debug, Clone, Copy, PartialEq, Eq, Structural)]
pub enum TaskState {
    Ready,
    Running,
    Blocked,
    Dead,
}

/// Task Control Block.
pub struct Task {
    pub id: usize,
    pub name: &'static str,
    pub state: TaskState,
    pub priority: u8,
    /// Stack pointer: the top of the saved context on the stack.
    pub sp: usize,
    /// Base of the kernel stack allocation.
    pub stack_base: usize,
}

/// The source of task ids: ids are handed out in sequence from 1, wrapping
/// around after `usize::MAX`.
pub struct TaskIds {
    next: usize,
}

/// The id handed out after `id`.
pub open spec fn next_id(id: usize) -> usize {
    if id == usize::MAX {
        0
    } else {
        (id + 1) as usize
    }
}

/// The `i`-th id handed out by a source whose next id is `first`.
pub open spec fn nth_id(first: usize, i: nat) -> usize {
    ((first + i) % (usize::MAX as int + 1)) as usize
}

impl TaskIds {
    /// The id the next task will get.
    pub closed spec fn next_spec(&self) -> usize {
        self.next
    }

    /// A fresh id source; the first task gets id 1.
    pub fn new() -> (ids: Self)
        ensures
            ids.next_spec() == 1,
    {
        TaskIds { next: 1 }
    }
}

impl Task {
    /// Create a ready task named `name` whose kernel stack is the
    /// `KERNEL_STACK_SIZE` bytes at `stack_base`. It takes the next id from
    /// `ids`, and its stack pointer starts at the top of the stack; the
    /// architecture lays out the initial context later.
    pub fn new(ids: &mut TaskIds, name: &'static str, priority: u8, stack_base: usize) -> (t: Task)
        requires
            stack_base + KERNEL_STACK_SIZE <= usize::MAX,
        ensures
            t.id == old(ids).next_spec(),
            final(ids).next_spec() == next_id(old(ids).next_spec()),
            t.name == name,
            t.state == TaskState::Ready,
            t.priority == priority,
            t.sp == stack_base + KERNEL_STACK_SIZE,
            t.stack_base == stack_base,
    {
        let id = ids.next;
        ids.next = ids.next.wrapping_add(1);
        let stack_top = stack_base + KERNEL_STACK_SIZE;
        Task { id, name, state: TaskState::Ready, priority, sp: stack_top, stack_base }
    }
}

/// Taking ids one after another walks the sequence `first, first + 1, ...`
/// modulo the word size.
pub proof fn lemma_next_id_steps(first: usize, i: nat)
    ensures
        next_id(nth_id(first, i)) == nth_id(first, i + 1),
{
    let m = usize::MAX as int + 1;
    let a = first + i;
    assert(0 <= a % m < m) by (nonlinear_arith)
        requires
            m > 0,
    ;
    if a % m == usize::MAX {
        assert((a + 1) % m == 0) by (nonlinear_arith)
            requires
                a % m == m - 1,
                m > 0,
        ;
    } else {
        assert((a + 1) % m == a % m + 1) by (nonlinear_arith)
            requires
                a % m < m - 1,
                0 <= a % m,
                m > 0,
        ;
    }
}

/// Task ids are unique: among any `usize::MAX + 1` tasks created one after
/// another from the same source, no two get the same id.
pub proof fn lemma_task_ids_distinct(first: usize, i: nat, j: nat)
    requires
        i < j,
        j <= usize::MAX,
    ensures
        nth_id(first, i) != nth_id(first, j),
{
    let m = usize::MAX as int + 1;
    let a = first + i;
    let b = first + j;
    assert(a % m != b % m) by (nonlinear_arith)
        requires
            0 < b - a < m,
            m > 0,
    ;
}

} // verus!
