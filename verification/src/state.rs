//! The shared control-plane state: the configured keys, the node registry
//! and the task queue. The registrar, the scheduler and the task handlers
//! are all operations on this one value; serial access to it is the
//! caller's affair (the surrounding service holds it behind a lock).

use vstd::prelude::*;

use crate::models::Configuration;
use crate::queue::TaskQueue;
use crate::registry::NodeRegistry;

verus! {

/// The control plane's single source of truth for per-node state.
pub struct MeshState {
    /// Keys read from the environment at startup.
    pub keys: Configuration,
    /// The authoritative node map.
    pub registry: NodeRegistry,
    /// The delayed-task queue driving the lifecycle state machine.
    pub queue: TaskQueue,
}

impl MeshState {
    /// Fresh state with no nodes and no tasks.
    pub fn new(keys: Configuration) -> (s: MeshState)
        ensures
            s.keys == keys,
            s.registry@ == Map::<Seq<char>, crate::models::NodeView>::empty(),
            s.queue@ == Seq::<crate::models::TaskView>::empty(),
    {
        MeshState { keys, registry: NodeRegistry::new(), queue: TaskQueue::new() }
    }
}

} // verus!
