//! Registration decisions. A registration request is first checked against
//! the configured key and the registry (`register_precheck`); only a new
//! key leads to external provisioning, whose results are then committed
//! atomically (`register_commit`): the node is stored in state
//! `Registering` and its first `Instantiate` task is enqueued.
//!
//! Re-registration with a known key changes nothing: no new external
//! calls, no new task, and the stored record keeps its identifier.

use vstd::prelude::*;

use crate::models::{Node, NodeState, NodeView, RegistryReturn, Server, Task, TaskType, task_view};
use crate::state::MeshState;
use crate::{REGISTER_TO_INSTANTIATE_MS, now_fits};

verus! {

/// What a registration request amounts to, before any external call.
pub enum RegisterOutcome {
    /// The presented key does not match the configured one.
    Forbidden,
    /// The key is already registered; the stored record answers the
    /// request and nothing is provisioned or enqueued.
    Existing,
    /// The key is new: external provisioning may go ahead, followed by
    /// `register_commit`.
    NeedsProvision,
}

impl MeshState {
    /// Decides a registration request: `Forbidden` on a key mismatch,
    /// `Existing` for a key already in the registry, `NeedsProvision`
    /// otherwise. Reads only; the state is untouched.
    pub fn register_precheck(&self, ip: &String, body: &Server) -> (r: RegisterOutcome)
        ensures
            (r is Forbidden) <==> body.auth@ != self.keys.check_key@,
            body.auth@ == self.keys.check_key@ ==> ((r is Existing) <==> self.registry@.contains_key(
                ip@,
            )),
            body.auth@ == self.keys.check_key@ ==> ((r is NeedsProvision)
                <==> !self.registry@.contains_key(ip@)),
    {
        if body.auth != self.keys.check_key {
            return RegisterOutcome::Forbidden;
        }
        if self.registry.contains_key(ip) {
            RegisterOutcome::Existing
        } else {
            RegisterOutcome::NeedsProvision
        }
    }

    /// Stores a freshly provisioned node in state `Registering` and
    /// enqueues its first `Instantiate` task for thirty seconds from now.
    pub fn register_commit(&mut self, information: RegistryReturn, now: u128)
        requires
            !old(self).registry@.contains_key(information.ip@),
            now_fits(now),
        ensures
            final(self).keys == old(self).keys,
            final(self).registry@ == old(self).registry@.insert(
                information.ip@,
                NodeView { information: information@, state: NodeState::Registering },
            ),
            final(self).queue@ == old(self).queue@.push(
                task_view(
                    TaskType::Instantiate(0),
                    information.ip@,
                    (now + REGISTER_TO_INSTANTIATE_MS) as u128,
                ),
            ),
    {
        let key = information.ip.clone();
        self.registry.insert(Node { information, state: NodeState::Registering });
        self.queue.push_back(
            Task {
                task_type: TaskType::Instantiate(0),
                action_object: key,
                exec_at: now + REGISTER_TO_INSTANTIATE_MS,
            },
        );
    }
}

} // verus!
