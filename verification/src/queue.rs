//! The delayed-task queue: FIFO order, with a helper for the earliest due
//! time. Tasks whose due time has not been reached are cycled to the back
//! by the scheduler, so FIFO order within equal due times is preserved.

use std::collections::VecDeque;
use vstd::prelude::*;

use crate::models::{Task, TaskView};

verus! {

/// Ordered queue of `Task` records. Its view is the sequence of task views,
/// front first.
pub struct TaskQueue {
    tasks: VecDeque<Task>,
}

impl View for TaskQueue {
    type V = Seq<TaskView>;

    closed spec fn view(&self) -> Seq<TaskView> {
        self.tasks@.map_values(|t: Task| t@)
    }
}

impl TaskQueue {
    /// An empty queue.
    pub fn new() -> (q: TaskQueue)
        ensures
            q@ == Seq::<TaskView>::empty(),
    {
        let q = TaskQueue { tasks: VecDeque::new() };
        proof {
            assert(q@ =~= Seq::<TaskView>::empty());
        }
        q
    }

    /// Number of queued tasks.
    pub fn len(&self) -> (n: usize)
        ensures
            n == self@.len(),
    {
        self.tasks.len()
    }

    /// Appends a task at the back.
    pub fn push_back(&mut self, task: Task)
        ensures
            final(self)@ == old(self)@.push(task@),
    {
        let ghost t = task@;
        self.tasks.push_back(task);
        proof {
            assert(final(self)@ =~= old(self)@.push(t));
        }
    }

    /// Removes and returns the front task, if any.
    pub fn pop_front(&mut self) -> (r: Option<Task>)
        ensures
            match r {
                Some(t) => {
                    &&& old(self)@.len() > 0
                    &&& t@ == old(self)@[0]
                    &&& final(self)@ == old(self)@.drop_first()
                },
                None => {
                    &&& old(self)@.len() == 0
                    &&& final(self)@ == old(self)@
                },
            },
    {
        let r = self.tasks.pop_front();
        proof {
            if old(self).tasks@.len() > 0 {
                assert(final(self)@ =~= old(self)@.drop_first());
            }
        }
        r
    }

    /// The earliest due time among the queued tasks, or `None` when the
    /// queue is empty.
    pub fn min_due_time(&self) -> (r: Option<u128>)
        ensures
            match r {
                Some(m) => {
                    &&& self@.len() > 0
                    &&& exists|i: int| 0 <= i < self@.len() && self@[i].exec_at == m
                    &&& forall|i: int| 0 <= i < self@.len() ==> m <= self@[i].exec_at
                },
                None => self@.len() == 0,
            },
    {
        if self.tasks.len() == 0 {
            return None;
        }
        let mut best: u128 = self.tasks[0].exec_at;
        let mut i: usize = 1;
        proof {
            assert(best == self@[0].exec_at);
        }
        while i < self.tasks.len()
            invariant
                1 <= i <= self.tasks.len(),
                exists|j: int| 0 <= j < i && self@[j].exec_at == best,
                forall|j: int| 0 <= j < i ==> best <= self@[j].exec_at,
            decreases self.tasks.len() - i,
        {
            let at = self.tasks[i].exec_at;
            proof {
                assert(at == self@[i as int].exec_at);
            }
            if at < best {
                best = at;
            }
            i = i + 1;
        }
        Some(best)
    }
}

} // verus!
