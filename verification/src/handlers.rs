//! The four task handlers, i.e. the lifecycle state machine proper.
//!
//! Each handler runs in two phases. The begin phase reads the registry and
//! decides whether outside work (a health probe, a store write, external
//! cleanup) is needed; the caller performs that work and reports its
//! outcome to the matching result phase, which mutates the registry and
//! enqueues follow-up tasks. Nothing here performs I/O, and the registry
//! is never held across the outside work.

use vstd::prelude::*;

use crate::models::{NodeState, Task, TaskType, Tries, task_view};
use crate::state::MeshState;
use crate::{
    CHECKSTATUS_MAX_TRIES, DISMISS_DELAY_MS, DISMISS_MAX_TRIES, HEALTH_INTERVAL_MS,
    INSTANTIATE_MAX_TRIES, PURGE_DELAY_MS, RETRY_BACKOFF_MS, now_fits,
};

verus! {

/// Begin-phase outcome of `Instantiate` and `CheckStatus`: either the
/// handler is already done, or the node with the returned identifier is to
/// be health-probed.
pub enum ProbeStep {
    Finished,
    Probe(String),
}

/// Begin-phase outcome of `Dismiss`: either the handler is already done,
/// or the store row with the returned identifier is to be deleted.
pub enum DismissStep {
    Finished,
    DeleteRow(String),
}

/// Outcome of `Purge`: either nothing is to be removed, or the node's
/// external artifacts are to be cleaned up best-effort before
/// `purge_finish` drops the record.
pub enum PurgeStep {
    Skip,
    Cleanup { record_id: String, record_dns_id: String, cert_id: String },
}

impl MeshState {
    /// `Instantiate(tries)`, begin phase. Past the retry cap the task
    /// terminates silently (the node stays `Registering`). A vanished node
    /// escalates to `Dismiss(0)` one second from now. Otherwise the node
    /// is to be probed.
    pub fn instantiate_begin(&mut self, key: &String, tries: Tries, now: u128) -> (r: ProbeStep)
        requires
            now_fits(now),
        ensures
            final(self).keys == old(self).keys,
            final(self).registry == old(self).registry,
            if tries >= INSTANTIATE_MAX_TRIES {
                &&& r is Finished
                &&& final(self).queue@ == old(self).queue@
            } else if !old(self).registry@.contains_key(key@) {
                &&& r is Finished
                &&& final(self).queue@ == old(self).queue@.push(
                    task_view(TaskType::Dismiss(0), key@, (now + DISMISS_DELAY_MS) as u128),
                )
            } else {
                &&& r matches ProbeStep::Probe(id) && id@ == old(self).registry@[key@].information.id
                &&& final(self).queue@ == old(self).queue@
            },
    {
        if tries >= INSTANTIATE_MAX_TRIES {
            return ProbeStep::Finished;
        }
        match self.registry.get(key) {
            Some(node) => ProbeStep::Probe(node.information.id.clone()),
            None => {
                self.queue.push_back(
                    Task {
                        task_type: TaskType::Dismiss(0),
                        action_object: key.clone(),
                        exec_at: now + DISMISS_DELAY_MS,
                    },
                );
                ProbeStep::Finished
            },
        }
    }

    /// `Instantiate(tries)` after a failed health probe or a failed store
    /// insert: exactly one retry with `tries + 1` is enqueued, due after
    /// the back-off.
    pub fn instantiate_failed(&mut self, key: &String, tries: Tries, now: u128)
        requires
            now_fits(now),
            tries < INSTANTIATE_MAX_TRIES,
        ensures
            final(self).keys == old(self).keys,
            final(self).registry == old(self).registry,
            final(self).queue@ == old(self).queue@.push(
                task_view(
                    TaskType::Instantiate((tries + 1) as Tries),
                    key@,
                    (now + RETRY_BACKOFF_MS) as u128,
                ),
            ),
    {
        self.queue.push_back(
            Task {
                task_type: TaskType::Instantiate(tries + 1),
                action_object: key.clone(),
                exec_at: now + RETRY_BACKOFF_MS,
            },
        );
    }

    /// `Instantiate` after the probe succeeded and the store insert
    /// committed: the node (if still present) goes `Online`, and its
    /// monitoring starts with `CheckStatus(0)` one interval from now.
    pub fn instantiate_insert_ok(&mut self, key: &String, now: u128)
        requires
            now_fits(now),
        ensures
            final(self).keys == old(self).keys,
            final(self).registry@ == if old(self).registry@.contains_key(key@) {
                old(self).registry@.insert(
                    key@,
                    old(self).registry@[key@].with_state(NodeState::Online),
                )
            } else {
                old(self).registry@
            },
            final(self).queue@ == old(self).queue@.push(
                task_view(TaskType::CheckStatus(0), key@, (now + HEALTH_INTERVAL_MS) as u128),
            ),
    {
        self.registry.set_state(key, NodeState::Online);
        self.queue.push_back(
            Task {
                task_type: TaskType::CheckStatus(0),
                action_object: key.clone(),
                exec_at: now + HEALTH_INTERVAL_MS,
            },
        );
    }

    /// `CheckStatus(tries)`, begin phase. Past the retry cap, or with the
    /// node gone, it escalates to `Dismiss(0)` one second from now and
    /// enqueues no further `CheckStatus`. Otherwise the node is to be
    /// probed.
    pub fn check_status_begin(&mut self, key: &String, tries: Tries, now: u128) -> (r: ProbeStep)
        requires
            now_fits(now),
        ensures
            final(self).keys == old(self).keys,
            final(self).registry == old(self).registry,
            if tries >= CHECKSTATUS_MAX_TRIES || !old(self).registry@.contains_key(key@) {
                &&& r is Finished
                &&& final(self).queue@ == old(self).queue@.push(
                    task_view(TaskType::Dismiss(0), key@, (now + DISMISS_DELAY_MS) as u128),
                )
            } else {
                &&& r matches ProbeStep::Probe(id) && id@ == old(self).registry@[key@].information.id
                &&& final(self).queue@ == old(self).queue@
            },
    {
        if tries >= CHECKSTATUS_MAX_TRIES {
            self.queue.push_back(
                Task {
                    task_type: TaskType::Dismiss(0),
                    action_object: key.clone(),
                    exec_at: now + DISMISS_DELAY_MS,
                },
            );
            return ProbeStep::Finished;
        }
        match self.registry.get(key) {
            Some(node) => ProbeStep::Probe(node.information.id.clone()),
            None => {
                self.queue.push_back(
                    Task {
                        task_type: TaskType::Dismiss(0),
                        action_object: key.clone(),
                        exec_at: now + DISMISS_DELAY_MS,
                    },
                );
                ProbeStep::Finished
            },
        }
    }

    /// `CheckStatus(tries)` after the probe came back. On success the node
    /// (if still present) is marked `Online` and the counter resets; on
    /// failure the registry is untouched and the counter grows. Either way
    /// exactly one follow-up `CheckStatus` is enqueued, one interval from
    /// now.
    pub fn check_status_probe_result(&mut self, key: &String, tries: Tries, ok: bool, now: u128)
        requires
            now_fits(now),
            !ok ==> tries < CHECKSTATUS_MAX_TRIES,
        ensures
            final(self).keys == old(self).keys,
            final(self).registry@ == if ok && old(self).registry@.contains_key(key@) {
                old(self).registry@.insert(
                    key@,
                    old(self).registry@[key@].with_state(NodeState::Online),
                )
            } else {
                old(self).registry@
            },
            final(self).queue@ == old(self).queue@.push(
                task_view(
                    TaskType::CheckStatus(if ok { 0 as Tries } else { (tries + 1) as Tries }),
                    key@,
                    (now + HEALTH_INTERVAL_MS) as u128,
                ),
            ),
    {
        let next: Tries = if ok {
            self.registry.set_state(key, NodeState::Online);
            0
        } else {
            tries + 1
        };
        self.queue.push_back(
            Task {
                task_type: TaskType::CheckStatus(next),
                action_object: key.clone(),
                exec_at: now + HEALTH_INTERVAL_MS,
            },
        );
    }

    /// `Dismiss(tries)`, begin phase. Past the retry cap, or with the node
    /// already gone, there is nothing to do. Otherwise the node's store
    /// row is to be deleted.
    pub fn dismiss_begin(&self, key: &String, tries: Tries) -> (r: DismissStep)
        ensures
            if tries >= DISMISS_MAX_TRIES || !self.registry@.contains_key(key@) {
                r is Finished
            } else {
                r matches DismissStep::DeleteRow(id) && id@ == self.registry@[key@].information.id
            },
    {
        if tries >= DISMISS_MAX_TRIES {
            return DismissStep::Finished;
        }
        match self.registry.get(key) {
            Some(node) => DismissStep::DeleteRow(node.information.id.clone()),
            None => DismissStep::Finished,
        }
    }

    /// `Dismiss(tries)` after a failed store delete: exactly one retry
    /// with `tries + 1` is enqueued, due after the back-off.
    pub fn dismiss_failed(&mut self, key: &String, tries: Tries, now: u128)
        requires
            now_fits(now),
            tries < DISMISS_MAX_TRIES,
        ensures
            final(self).keys == old(self).keys,
            final(self).registry == old(self).registry,
            final(self).queue@ == old(self).queue@.push(
                task_view(
                    TaskType::Dismiss((tries + 1) as Tries),
                    key@,
                    (now + RETRY_BACKOFF_MS) as u128,
                ),
            ),
    {
        self.queue.push_back(
            Task {
                task_type: TaskType::Dismiss(tries + 1),
                action_object: key.clone(),
                exec_at: now + RETRY_BACKOFF_MS,
            },
        );
    }

    /// `Dismiss` after the store delete committed: the node (if still
    /// present) goes `Offline`, and its removal is scheduled with a
    /// `Purge` task due one hour from now — the earliest moment the
    /// record can disappear.
    pub fn dismiss_delete_ok(&mut self, key: &String, now: u128)
        requires
            now_fits(now),
        ensures
            final(self).keys == old(self).keys,
            final(self).registry@ == if old(self).registry@.contains_key(key@) {
                old(self).registry@.insert(
                    key@,
                    old(self).registry@[key@].with_state(NodeState::Offline),
                )
            } else {
                old(self).registry@
            },
            final(self).queue@ == old(self).queue@.push(
                task_view(TaskType::Purge, key@, (now + PURGE_DELAY_MS) as u128),
            ),
    {
        self.registry.set_state(key, NodeState::Offline);
        self.queue.push_back(
            Task {
                task_type: TaskType::Purge,
                action_object: key.clone(),
                exec_at: now + PURGE_DELAY_MS,
            },
        );
    }

    /// `Purge`, begin phase. A node that is gone, or that recovered to
    /// `Online`, or that is still `Registering`, is left alone. Only an
    /// `Offline` node has its external artifacts handed out for
    /// best-effort cleanup.
    pub fn purge_begin(&self, key: &String) -> (r: PurgeStep)
        ensures
            if !self.registry@.contains_key(key@) || self.registry@[key@].state is Online
                || self.registry@[key@].state is Registering {
                r is Skip
            } else {
                r matches PurgeStep::Cleanup { record_id, record_dns_id, cert_id } && {
                    &&& record_id@ == self.registry@[key@].information.record_id
                    &&& record_dns_id@ == self.registry@[key@].information.record_dns_id
                    &&& cert_id@ == self.registry@[key@].information.cert_id
                }
            },
    {
        match self.registry.get(key) {
            None => PurgeStep::Skip,
            Some(node) => match node.state {
                NodeState::Online | NodeState::Registering => PurgeStep::Skip,
                NodeState::Offline => PurgeStep::Cleanup {
                    record_id: node.information.record_id.clone(),
                    record_dns_id: node.information.record_dns_id.clone(),
                    cert_id: node.information.cert_id.clone(),
                },
            },
        }
    }

    /// `Purge`, final phase: removes the node's record — but never one
    /// that is `Online` or `Registering`. A node that recovered between
    /// the phases stays.
    pub fn purge_finish(&mut self, key: &String)
        ensures
            final(self).keys == old(self).keys,
            final(self).queue == old(self).queue,
            final(self).registry@ == if old(self).registry@.contains_key(key@) && old(
                self,
            ).registry@[key@].state is Offline {
                old(self).registry@.remove(key@)
            } else {
                old(self).registry@
            },
    {
        let state = match self.registry.get(key) {
            Some(node) => Some(node.state),
            None => None,
        };
        match state {
            Some(NodeState::Offline) => self.registry.remove(key),
            _ => (),
        }
    }
}

/// A node dismissed at time `dismissed_at` has its `Purge` task due at
/// `dismissed_at + PURGE_DELAY_MS`, and the scheduler dispatches no task
/// before its due time: one hour after the dismissal is the earliest
/// possible removal time.
pub proof fn lemma_purge_not_due_before(dismissed_at: u128, now: u128, due: u128)
    requires
        due == dismissed_at + PURGE_DELAY_MS,
        now < dismissed_at + PURGE_DELAY_MS,
    ensures
        !(due <= now),
{
}

} // verus!
