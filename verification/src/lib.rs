//! Control-plane core for a mesh of edge server nodes.
//!
//! Nodes register with the control plane, which provisions DNS records and
//! TLS certificates for them, publishes them to a relational store, probes
//! their health, and eventually tears them down. This crate holds the
//! verified heart of that service: the node registry, the delayed-task
//! queue, the scheduler step, the registrar decisions, and the four task
//! handlers that form the node lifecycle state machine. All I/O (HTTP,
//! database, clock reads) happens outside, against the contracts stated
//! here.

use vstd::prelude::*;

pub mod handlers;
pub mod models;
pub mod provision;
pub mod queue;
pub mod registrar;
pub mod registry;
pub mod scheduler;
pub mod state;
pub mod store;
pub mod strings;

verus! {

/// `Instantiate(tries)` does work only while `tries` is below this cap;
/// at the cap it terminates silently.
pub const INSTANTIATE_MAX_TRIES: i16 = 6;

/// `CheckStatus(tries)` probes only while `tries` is below this cap; at
/// the cap it escalates to `Dismiss(0)`.
pub const CHECKSTATUS_MAX_TRIES: i16 = 5;

/// `Dismiss(tries)` does work only while `tries` is below this cap; at
/// the cap it terminates silently.
pub const DISMISS_MAX_TRIES: i16 = 6;

/// A purged node is removed no earlier than one hour after it was dismissed.
pub const PURGE_DELAY_MS: u128 = 3600000;

/// Delay before a failed task is retried.
pub const RETRY_BACKOFF_MS: u128 = 5000;

/// Interval between two health probes of one node.
pub const HEALTH_INTERVAL_MS: u128 = 1000;

/// Delay between a node's registration and its first `Instantiate` task.
pub const REGISTER_TO_INSTANTIATE_MS: u128 = 30000;

/// Delay before a `Dismiss(0)` enqueued on escalation (cap reached, or the
/// node is gone) becomes due.
pub const DISMISS_DELAY_MS: u128 = 1000;

/// Whether a due-time offset added to `now` stays within the millisecond
/// counter. `PURGE_DELAY_MS` is the largest offset any operation adds.
pub open spec fn now_fits(now: u128) -> bool {
    now <= u128::MAX - PURGE_DELAY_MS
}

} // verus!
