//! The scheduler step: pick the front task, dispatch it if due, cycle it
//! to the back otherwise. No task is ever dispatched before its due time.

use vstd::prelude::*;

use crate::models::{Task, TaskView};
use crate::state::MeshState;

verus! {

/// What the scheduler loop does next: run a task, or sleep briefly.
pub enum SchedulerAction {
    /// The task is due; run its handler now.
    Dispatch(Task),
    /// Nothing is due; sleep this many milliseconds and ask again.
    Sleep(u64),
}

/// `m` is the earliest due time occurring in `q`.
pub open spec fn is_min_due(q: Seq<TaskView>, m: u128) -> bool {
    &&& exists|i: int| 0 <= i < q.len() && q[i].exec_at == m
    &&& forall|i: int| 0 <= i < q.len() ==> m <= #[trigger] q[i].exec_at
}

/// How long the scheduler sleeps when the earliest due time is `m`: up to
/// the hundred-millisecond tick, or less if `m` comes sooner.
pub open spec fn sleep_for(m: u128, now: u128) -> u64 {
    if m <= now {
        0
    } else if m - now >= 100 {
        100
    } else {
        (m - now) as u64
    }
}

impl MeshState {
    /// One scheduler step at wall-clock time `now`. Dispatches the front
    /// task if its due time has been reached; otherwise cycles it to the
    /// back and asks for a sleep no longer than the distance to the
    /// earliest due time. A dispatched task has `exec_at <= now`: no task
    /// runs before its due time.
    pub fn next_action(&mut self, now: u128) -> (r: SchedulerAction)
        ensures
            final(self).keys == old(self).keys,
            final(self).registry == old(self).registry,
            match r {
                SchedulerAction::Dispatch(t) => {
                    &&& old(self).queue@.len() > 0
                    &&& t@ == old(self).queue@[0]
                    &&& t@.exec_at <= now
                    &&& final(self).queue@ == old(self).queue@.drop_first()
                },
                SchedulerAction::Sleep(ms) => {
                    if old(self).queue@.len() == 0 {
                        &&& ms == 100
                        &&& final(self).queue@ == old(self).queue@
                    } else {
                        &&& old(self).queue@[0].exec_at > now
                        &&& final(self).queue@ == old(self).queue@.drop_first().push(
                            old(self).queue@[0],
                        )
                        &&& exists|m: u128|
                            is_min_due(final(self).queue@, m) && ms == sleep_for(m, now)
                    }
                },
            },
    {
        match self.queue.pop_front() {
            None => SchedulerAction::Sleep(100),
            Some(task) => {
                if task.exec_at <= now {
                    SchedulerAction::Dispatch(task)
                } else {
                    self.queue.push_back(task);
                    match self.queue.min_due_time() {
                        Some(m) => {
                            let ms: u64 = if m <= now {
                                0
                            } else if m - now >= 100 {
                                100
                            } else {
                                (m - now) as u64
                            };
                            proof {
                                assert(is_min_due(self.queue@, m));
                                assert(ms == sleep_for(m, now));
                            }
                            SchedulerAction::Sleep(ms)
                        },
                        // The queue holds at least the task just cycled,
                        // so a due time always exists.
                        None => SchedulerAction::Sleep(100),
                    }
                }
            },
        }
    }
}

} // verus!
