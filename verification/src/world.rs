//! Plain-value snapshot of the world state that the decision core reads.
//!
//! World-object handles are only valid for the cycle in which they were
//! obtained, so the core never stores or receives a live handle.  The host
//! layer reduces what the core needs of an agent and of its room to the
//! plain values below, freshly gathered every cycle.

use vstd::prelude::*;

verus! {

/// What the core reads of one controlled agent in the current cycle.
#[derive(Clone, Copy, PartialEq, Eq, Structural, Debug)]
pub struct AgentState {
    /// The agent is still being created and is not yet materialized in the
    /// world; such an agent is skipped entirely.
    pub spawning: bool,
    /// Units of the resource the agent currently holds.
    pub used_energy: u32,
    /// Free cargo capacity the agent has left for the resource.
    pub free_energy: u32,
}

/// One structure of the agent's room, reduced to what discovery reads:
/// receiving structures with their free capacity, the controller, and
/// everything else.
#[derive(Clone, Copy, PartialEq, Eq, Structural, Debug)]
pub enum Structure {
    /// A spawn: a structure that accepts delivered resource.
    Spawn { id: u128, free_energy: u32 },
    /// The room's controller structure.
    Controller { id: u128 },
    /// Any other structure; discovery ignores it.
    Other,
}

/// The room as discovery sees it: all structures and all active resource
/// sources, each list in the host's natural enumeration order.
#[derive(Debug)]
pub struct RoomSnapshot {
    pub structures: Vec<Structure>,
    pub active_sources: Vec<u128>,
}

/// Outcome of re-resolving a lock's stable target identifier against the
/// current world snapshot.  Resolution may fail — the object may have been
/// destroyed or left view — and that is a first-class outcome, not an error.
#[derive(Clone, Copy, PartialEq, Eq, Structural, Debug)]
pub enum Resolution {
    /// The identifier no longer denotes a live object this cycle.
    Unresolved,
    /// The identifier resolved; `adjacent` says whether the agent stands
    /// next to the resolved object.
    Resolved { adjacent: bool },
}

/// Status of one attempted agent action, from the host's fixed vocabulary.
#[derive(Clone, Copy, PartialEq, Eq, Structural, Debug)]
pub enum Status {
    /// The action succeeded.
    Success,
    /// The target is too far away; the expected signal to keep moving.
    NotInRange,
    /// Any other non-success code, carried for diagnostics.
    Failed(i8),
}

} // verus!
