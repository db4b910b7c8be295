//! The task manager: the set of registered tasks, their saved stack
//! pointers, and the round-robin scheduling policy the timer drives.
//!
//! Exactly one task is marked running at any time. On each tick the
//! scheduler stores the preempted task's stack pointer, advances the cursor
//! to the next registered task (wrapping after the last) and hands back that
//! task's stored stack pointer. The manager is reached only from the timer
//! interrupt path, which runs with interrupts masked, so it needs an
//! exclusive owner rather than a lock.

use vstd::prelude::*;

verus! {

/// Lifecycle state of a task. The observed interface only ever round-trips
/// between runnable and running; the enum leaves room for further states.
#[derive(Clone, Copy, PartialEq, Eq, Structural, Debug)]
pub enum TaskState {
    Runnable,
    Running,
}

/// One schedulable unit: its saved stack pointer — valid only while the task
/// is not running — and its lifecycle state.
#[derive(Clone, Copy, PartialEq, Eq, Structural, Debug)]
pub struct Task {
    /// Address of the task's saved CPU context; consumed when it resumes.
    pub stack_pointer: u32,
    /// Where the task stands in its lifecycle.
    pub state: TaskState,
}

/// The process-wide scheduling state: the registered tasks and the cursor of
/// the one currently running.
pub struct TaskManager {
    /// The registered tasks, in registration order.
    pub tasks: Vec<Task>,
    /// Index of the task currently marked running.
    pub current: usize,
}

impl TaskManager {
    /// At least one task is registered, the cursor is in range, the task
    /// under the cursor — and only that task — is marked running.
    pub open spec fn well_formed(self) -> bool {
        &&& self.tasks@.len() >= 1
        &&& self.current < self.tasks@.len()
        &&& self.tasks@[self.current as int].state == TaskState::Running
        &&& forall|i: int|
            0 <= i < self.tasks@.len() && i != self.current as int ==> (
            #[trigger] self.tasks@[i]).state == TaskState::Runnable
    }

    /// The stored stack pointers, in registration order.
    pub open spec fn pointers(self) -> Seq<u32> {
        self.tasks@.map_values(|t: Task| t.stack_pointer)
    }

    /// Registers a fixed task set, one task per initial stack pointer, and
    /// marks the first task running. Task creation beyond this fixed set is
    /// outside this core.
    pub fn new(stack_pointers: &Vec<u32>) -> (manager: TaskManager)
        requires
            stack_pointers@.len() >= 1,
        ensures
            manager.well_formed(),
            manager.current == 0,
            manager.pointers() == stack_pointers@,
    {
        let mut tasks: Vec<Task> = Vec::new();
        let mut i: usize = 0;
        while i < stack_pointers.len()
            invariant
                i <= stack_pointers@.len(),
                tasks@.len() == i,
                forall|j: int|
                    0 <= j < i ==> (#[trigger] tasks@[j]).stack_pointer == stack_pointers@[j],
                forall|j: int|
                    0 <= j < i ==> (#[trigger] tasks@[j]).state == (if j == 0 {
                        TaskState::Running
                    } else {
                        TaskState::Runnable
                    }),
            decreases stack_pointers@.len() - i,
        {
            let state = if i == 0 {
                TaskState::Running
            } else {
                TaskState::Runnable
            };
            tasks.push(Task { stack_pointer: stack_pointers[i], state });
            i += 1;
        }
        let manager = TaskManager { tasks, current: 0 };
        proof {
            assert(manager.pointers() =~= stack_pointers@);
        }
        manager
    }

    /// One scheduling decision, taken at a timer tick. Stores `esp` — the
    /// stack pointer of the preempted task's freshly saved context — into the
    /// running task's slot, advances the cursor round-robin to the next
    /// registered task (wrapping after the last), marks that task running,
    /// and returns its stored stack pointer for the trampoline to resume
    /// from. With a single registered task the pointer handed back is exactly
    /// `esp`.
    pub fn schedule(&mut self, esp: u32) -> (next: u32)
        requires
            old(self).well_formed(),
        ensures
            final(self).well_formed(),
            final(self).tasks@.len() == old(self).tasks@.len(),
            final(self).current as int == (old(self).current + 1) % old(self).tasks@.len() as int,
            final(self).pointers() == old(self).pointers().update(old(self).current as int, esp),
            next == final(self).pointers()[final(self).current as int],
            old(self).tasks@.len() == 1 ==> next == esp,
    {
        let n = self.tasks.len();
        let cur = self.current;
        // store the preempted task's context and mark it runnable
        self.tasks[cur] = Task { stack_pointer: esp, state: TaskState::Runnable };
        // advance the cursor round-robin, wrapping after the last task
        let next_index = if cur + 1 == n {
            0
        } else {
            cur + 1
        };
        let next_task = self.tasks[next_index];
        self.tasks[next_index] = Task { stack_pointer: next_task.stack_pointer, state: TaskState::Running };
        self.current = next_index;
        proof {
            if cur + 1 == n {
                vstd::arithmetic::div_mod::lemma_mod_self_0(n as int);
            } else {
                vstd::arithmetic::div_mod::lemma_small_mod((cur + 1) as nat, n as nat);
            }
            assert(next_index as int == (cur + 1) % n as int);
            assert(self.pointers() =~= old(self).pointers().update(cur as int, esp));
        }
        next_task.stack_pointer
    }
}

/// One feedback step of the round-robin cycle at the level of the stored
/// pointers: a tick whose `esp` argument is the pointer the previous tick
/// returned — which is exactly the running task's stored pointer — stores
/// that same value back and advances the cursor.
pub open spec fn feedback_step(pointers: Seq<u32>, cursor: int) -> (Seq<u32>, int) {
    (pointers.update(cursor, pointers[cursor]), (cursor + 1) % pointers.len() as int)
}

/// `count` consecutive feedback steps.
pub open spec fn feedback_cycle(pointers: Seq<u32>, cursor: int, count: nat) -> (Seq<u32>, int)
    decreases count,
{
    if count == 0 {
        (pointers, cursor)
    } else {
        let (mid_pointers, mid_cursor) = feedback_cycle(pointers, cursor, (count - 1) as nat);
        feedback_step(mid_pointers, mid_cursor)
    }
}

/// After any number of feedback steps every stored stack pointer is as it
/// was — each task's slot is rewritten with the very value it was given on
/// its turn — and the cursor has advanced by that number of steps, modulo
/// the size of the task set.
pub proof fn lemma_feedback_cycle(pointers: Seq<u32>, cursor: int, count: nat)
    requires
        pointers.len() >= 1,
        0 <= cursor < pointers.len(),
    ensures
        feedback_cycle(pointers, cursor, count).0 == pointers,
        feedback_cycle(pointers, cursor, count).1 == (cursor + count) % pointers.len() as int,
        0 <= feedback_cycle(pointers, cursor, count).1 < pointers.len(),
    decreases count,
{
    if count == 0 {
        vstd::arithmetic::div_mod::lemma_small_mod(cursor as nat, pointers.len());
    } else {
        lemma_feedback_cycle(pointers, cursor, (count - 1) as nat);
        let (mid_pointers, mid_cursor) = feedback_cycle(pointers, cursor, (count - 1) as nat);
        assert(mid_pointers.update(mid_cursor, mid_pointers[mid_cursor]) =~= mid_pointers);
        assert((mid_cursor + 1) % pointers.len() as int == (cursor + count) % pointers.len() as int)
            by {
            let n = pointers.len() as int;
            assert(mid_cursor == (cursor + (count - 1)) % n);
            vstd::arithmetic::div_mod::lemma_add_mod_noop_right(1, cursor + (count - 1), n);
        };
    }
}

/// A full round of the cycle: after exactly as many feedback ticks as there
/// are tasks, the cursor is back on the task that was running first and
/// every stored stack pointer equals what it was given on its turn.
pub proof fn lemma_full_round(pointers: Seq<u32>, cursor: int)
    requires
        pointers.len() >= 1,
        0 <= cursor < pointers.len(),
    ensures
        feedback_cycle(pointers, cursor, pointers.len()).0 == pointers,
        feedback_cycle(pointers, cursor, pointers.len()).1 == cursor,
{
    lemma_feedback_cycle(pointers, cursor, pointers.len());
    let n = pointers.len() as int;
    vstd::arithmetic::div_mod::lemma_mod_add_multiples_vanish(cursor, n);
    vstd::arithmetic::div_mod::lemma_small_mod(cursor as nat, n as nat);
}

} // verus!
