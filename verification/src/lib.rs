//! Per-cycle decision core for an autonomous multi-agent controller.
//!
//! Each cycle every controlled mobile agent is driven toward exactly one
//! task.  A task lock persists per agent across cycles; each cycle it is
//! validated against the current world snapshot, one unit of progress is
//! executed, and stale or failed locks are cleared so the greedy discovery
//! policy can assign afresh.

use vstd::prelude::*;

pub mod discover;
pub mod id;
pub mod registry;
pub mod spawn;
pub mod step;
pub mod world;

verus! {

/// An agent's committed task.  The payload is the stable identifier of the
/// task's target object; world handles expire every cycle, so only
/// identifiers may be stored across a cycle boundary.
#[derive(Clone, Copy, PartialEq, Eq, Structural, Debug)]
pub enum TaskLock {
    /// Deliver held resource to a receiving structure.
    Charge(u128),
    /// Contribute held resource to a controller structure.
    Upgrade(u128),
    /// Extract resource from a source structure.
    Harvest(u128),
}

impl TaskLock {
    /// The stable identifier of the lock's target.
    pub open spec fn target(self) -> u128 {
        match self {
            TaskLock::Charge(id) => id,
            TaskLock::Upgrade(id) => id,
            TaskLock::Harvest(id) => id,
        }
    }
}

} // verus!
