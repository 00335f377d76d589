//! Task discovery: the greedy fallback policy that assigns a fresh task to
//! an agent holding no lock.
//!
//! The policy is strictly ordered, first match wins: a resource-bearing
//! agent delivers to the first under-capacity spawn, else upgrades the
//! room's controller; an empty-handed agent harvests the first active
//! source.  There is no randomization and no tie-breaking beyond the
//! host's enumeration order, so discovery is a pure function of the agent
//! state and the room snapshot.

use vstd::prelude::*;

use crate::TaskLock;
use crate::world::{AgentState, RoomSnapshot, Structure};

verus! {

/// What discovery decided for an agent with no lock.
#[derive(Clone, Copy, PartialEq, Eq, Structural, Debug)]
pub enum Discovery {
    /// A task was found; the caller records this lock for the agent.
    Assigned(TaskLock),
    /// The agent is empty-handed and the room has no active source; the
    /// agent idles this cycle.
    Idle,
    /// The agent bears resource but the room has neither an under-capacity
    /// spawn nor a controller: a configuration anomaly worth flagging; the
    /// agent idles this cycle.
    NoSink,
}

/// Whether this structure is a spawn that can still accept resource.
pub open spec fn is_open_spawn(s: Structure) -> bool {
    s matches Structure::Spawn { id: _, free_energy } && free_energy > 0
}

/// The identifier of the first spawn with free capacity, in enumeration
/// order, if any.
pub open spec fn first_open_spawn(structures: Seq<Structure>) -> Option<u128>
    decreases structures.len(),
{
    if structures.len() == 0 {
        None
    } else {
        match first_open_spawn(structures.drop_last()) {
            Some(id) => Some(id),
            None => match structures.last() {
                Structure::Spawn { id, free_energy } => if free_energy > 0 {
                    Some(id)
                } else {
                    None
                },
                _ => None,
            },
        }
    }
}

/// The identifier of the room's controller, if one is enumerated; when
/// several are, the last one enumerated wins.
pub open spec fn room_controller(structures: Seq<Structure>) -> Option<u128>
    decreases structures.len(),
{
    if structures.len() == 0 {
        None
    } else {
        match structures.last() {
            Structure::Controller { id } => Some(id),
            _ => room_controller(structures.drop_last()),
        }
    }
}

/// The whole discovery policy as a function of the agent state and the
/// room snapshot.
pub open spec fn discover_spec(agent: AgentState, room: RoomSnapshot) -> Discovery {
    if agent.used_energy > 0 {
        match first_open_spawn(room.structures@) {
            Some(id) => Discovery::Assigned(TaskLock::Charge(id)),
            None => match room_controller(room.structures@) {
                Some(id) => Discovery::Assigned(TaskLock::Upgrade(id)),
                None => Discovery::NoSink,
            },
        }
    } else if room.active_sources@.len() > 0 {
        Discovery::Assigned(TaskLock::Harvest(room.active_sources@[0]))
    } else {
        Discovery::Idle
    }
}

/// A sequence that holds an open spawn somewhere always yields a first
/// open spawn.
proof fn lemma_first_open_spawn_some(s: Seq<Structure>)
    requires
        exists|i: int| 0 <= i < s.len() && is_open_spawn(s[i]),
    ensures
        first_open_spawn(s) is Some,
    decreases s.len(),
{
    let i = choose|i: int| 0 <= i < s.len() && is_open_spawn(s[i]);
    if i < s.len() - 1 {
        assert(s.drop_last()[i] == s[i]);
        lemma_first_open_spawn_some(s.drop_last());
    } else {
        assert(is_open_spawn(s.last()));
    }
}

/// Task discovery is deterministic: it reads only the agent state and the
/// contents of the snapshot, so identical inputs yield the identical
/// assignment over repeated invocations, even across distinct copies of
/// the snapshot.
pub proof fn discovery_deterministic(agent: AgentState, room1: RoomSnapshot, room2: RoomSnapshot)
    requires
        room1.structures@ == room2.structures@,
        room1.active_sources@ == room2.active_sources@,
    ensures
        discover_spec(agent, room1) == discover_spec(agent, room2),
{
}

/// Priority order is respected: a resource-bearing agent in a room that
/// holds both an under-capacity spawn and a controller is always assigned
/// `Charge`, never `Upgrade`.
pub proof fn charge_over_upgrade(agent: AgentState, room: RoomSnapshot)
    requires
        agent.used_energy > 0,
        exists|i: int| 0 <= i < room.structures@.len() && is_open_spawn(room.structures@[i]),
        exists|i: int| 0 <= i < room.structures@.len() && room.structures@[i] is Controller,
    ensures
        discover_spec(agent, room) matches Discovery::Assigned(lock) && lock is Charge,
{
    lemma_first_open_spawn_some(room.structures@);
}

/// Assign a task to an agent that holds no lock, by the fixed-priority
/// greedy policy.
pub fn discover(agent: &AgentState, room: &RoomSnapshot) -> (r: Discovery)
    ensures
        r == discover_spec(*agent, *room),
{
    if agent.used_energy > 0 {
        let mut first_spawn: Option<u128> = None;
        let mut ctrl: Option<u128> = None;
        let n = room.structures.len();
        let mut i: usize = 0;
        while i < n
            invariant
                n == room.structures@.len(),
                i <= n,
                first_spawn == first_open_spawn(room.structures@.take(i as int)),
                ctrl == room_controller(room.structures@.take(i as int)),
            decreases n - i,
        {
            proof {
                assert(room.structures@.take(i + 1).drop_last() =~= room.structures@.take(
                    i as int,
                ));
                assert(room.structures@.take(i + 1).last() == room.structures@[i as int]);
            }
            match room.structures[i] {
                Structure::Spawn { id, free_energy } => {
                    if free_energy > 0 && first_spawn.is_none() {
                        first_spawn = Some(id);
                    }
                },
                Structure::Controller { id } => {
                    ctrl = Some(id);
                },
                Structure::Other => {},
            }
            i = i + 1;
        }
        proof {
            assert(room.structures@.take(n as int) =~= room.structures@);
        }
        match first_spawn {
            Some(id) => Discovery::Assigned(TaskLock::Charge(id)),
            None => match ctrl {
                Some(id) => Discovery::Assigned(TaskLock::Upgrade(id)),
                None => Discovery::NoSink,
            },
        }
    } else if room.active_sources.len() > 0 {
        Discovery::Assigned(TaskLock::Harvest(room.active_sources[0]))
    } else {
        Discovery::Idle
    }
}

} // verus!
