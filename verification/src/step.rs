//! The per-agent resolver / executor: one step of the task state machine.
//!
//! Each cycle an agent's lock (if any) is validated against the current
//! world snapshot and one unit of progress is planned.  The host performs
//! the planned action and reports its status, which `after_action` turns
//! into the lock's fate.  A cleared lock is never retried within the same
//! cycle; the next cycle's discovery chooses fresh.

use vstd::prelude::*;

use crate::TaskLock;
use crate::discover::{Discovery, discover, discover_spec};
use crate::world::{AgentState, Resolution, RoomSnapshot, Status};

verus! {

/// The one agent action a step may call for.  The payload is the stable
/// identifier of the action's target, to be re-resolved by the caller
/// within the same cycle.
#[derive(Clone, Copy, PartialEq, Eq, Structural, Debug)]
pub enum StepAction {
    /// Extract resource from this source.
    Harvest(u128),
    /// Contribute held resource to this controller.
    Upgrade(u128),
    /// Transfer held resource to this structure.
    Transfer(u128),
}

/// What one step decided for one agent.
#[derive(Clone, Copy, PartialEq, Eq, Structural, Debug)]
pub enum StepPlan {
    /// The agent is still spawning: nothing is read, written or done.
    Skip,
    /// The agent held no lock; apply this discovery outcome.  No action is
    /// performed in the cycle that assigns a task.
    Discover(Discovery),
    /// The lock's cargo precondition no longer holds: the task is complete
    /// or obsolete.  Drop the lock; no action, regardless of resolution.
    Clear,
    /// The lock's target failed to resolve: drop the lock, perform no
    /// action, and re-evaluate the agent as unassigned in this same step.
    ClearDiscover(Discovery),
    /// A harvest lock whose target resolved but is not adjacent: issue one
    /// move toward the target; the lock is unchanged.
    Approach(u128),
    /// The lock is valid: attempt this action, then settle the lock with
    /// `after_action` on the reported status.
    Attempt(StepAction),
}

/// The fate of a lock after its attempted action reported a status.
#[derive(Clone, Copy, PartialEq, Eq, Structural, Debug)]
pub enum Settled {
    /// Success: the lock stays for further cycles.
    Keep,
    /// Not in range: issue one move toward this target; the lock stays —
    /// a multi-cycle task, not a failure.
    MoveKeep(u128),
    /// Any other non-success: drop the lock and surface a warning; the
    /// next cycle's discovery chooses fresh.
    Clear,
}

/// The cargo precondition under which a lock's task is still active: a
/// delivering or upgrading agent must hold resource, a harvesting agent
/// must have free capacity.
pub open spec fn guard(lock: TaskLock, agent: AgentState) -> bool {
    match lock {
        TaskLock::Charge(_) => agent.used_energy > 0,
        TaskLock::Upgrade(_) => agent.used_energy > 0,
        TaskLock::Harvest(_) => agent.free_energy > 0,
    }
}

/// The action a valid lock calls for.
pub open spec fn lock_action(lock: TaskLock) -> StepAction {
    match lock {
        TaskLock::Charge(id) => StepAction::Transfer(id),
        TaskLock::Upgrade(id) => StepAction::Upgrade(id),
        TaskLock::Harvest(id) => StepAction::Harvest(id),
    }
}

/// Whether a plan issues an agent action this cycle.
pub open spec fn plan_acts(plan: StepPlan) -> bool {
    match plan {
        StepPlan::Approach(_) => true,
        StepPlan::Attempt(_) => true,
        _ => false,
    }
}

/// The whole step decision as a function of the lock, the agent state,
/// the resolution of the lock's target, and the room snapshot.
pub open spec fn plan_spec(
    lock: Option<TaskLock>,
    agent: AgentState,
    res: Resolution,
    room: RoomSnapshot,
) -> StepPlan {
    if agent.spawning {
        StepPlan::Skip
    } else {
        match lock {
            None => StepPlan::Discover(discover_spec(agent, room)),
            Some(l) => if !guard(l, agent) {
                StepPlan::Clear
            } else {
                match res {
                    Resolution::Unresolved => StepPlan::ClearDiscover(discover_spec(agent, room)),
                    Resolution::Resolved { adjacent } => match l {
                        TaskLock::Harvest(id) => if adjacent {
                            StepPlan::Attempt(StepAction::Harvest(id))
                        } else {
                            StepPlan::Approach(id)
                        },
                        _ => StepPlan::Attempt(lock_action(l)),
                    },
                }
            },
        }
    }
}

/// The lock's fate for each status: success keeps it, "not in range"
/// keeps it and moves toward the target, anything else clears it.
pub open spec fn settle_spec(lock: TaskLock, status: Status) -> Settled {
    match status {
        Status::Success => Settled::Keep,
        Status::NotInRange => Settled::MoveKeep(lock.target()),
        Status::Failed(_) => Settled::Clear,
    }
}

/// Decide one step for one agent.  `res` is the resolution of the current
/// lock's target for this cycle; it is read only when a lock is present
/// and its precondition holds.
pub fn plan_step(
    lock: Option<TaskLock>,
    agent: &AgentState,
    res: Resolution,
    room: &RoomSnapshot,
) -> (r: StepPlan)
    ensures
        r == plan_spec(lock, *agent, res, *room),
{
    if agent.spawning {
        return StepPlan::Skip;
    }
    match lock {
        None => StepPlan::Discover(discover(agent, room)),
        Some(l) => {
            let active = match l {
                TaskLock::Charge(_) => agent.used_energy > 0,
                TaskLock::Upgrade(_) => agent.used_energy > 0,
                TaskLock::Harvest(_) => agent.free_energy > 0,
            };
            if !active {
                return StepPlan::Clear;
            }
            match res {
                Resolution::Unresolved => StepPlan::ClearDiscover(discover(agent, room)),
                Resolution::Resolved { adjacent } => match l {
                    TaskLock::Harvest(id) => if adjacent {
                        StepPlan::Attempt(StepAction::Harvest(id))
                    } else {
                        StepPlan::Approach(id)
                    },
                    TaskLock::Upgrade(id) => StepPlan::Attempt(StepAction::Upgrade(id)),
                    TaskLock::Charge(id) => StepPlan::Attempt(StepAction::Transfer(id)),
                },
            }
        },
    }
}

/// An `Upgrade` or `Charge` lock held by an agent with zero held resource
/// is cleared by the very next step, with no action attempted, whatever
/// the target would have resolved to.
pub proof fn drained_lock_clears(
    lock: TaskLock,
    agent: AgentState,
    res: Resolution,
    room: RoomSnapshot,
)
    requires
        !agent.spawning,
        agent.used_energy == 0,
        lock is Upgrade || lock is Charge,
    ensures
        plan_spec(Some(lock), agent, res, room) == StepPlan::Clear,
        !plan_acts(plan_spec(Some(lock), agent, res, room)),
{
}

/// A lock whose target fails to resolve is cleared and the step performs
/// no move, harvest, upgrade or transfer action.  When the lock's cargo
/// precondition still held, the agent is re-evaluated as unassigned in
/// the same step.
pub proof fn unresolved_lock_clears(lock: TaskLock, agent: AgentState, room: RoomSnapshot)
    requires
        !agent.spawning,
    ensures
        !plan_acts(plan_spec(Some(lock), agent, Resolution::Unresolved, room)),
        guard(lock, agent) ==> plan_spec(Some(lock), agent, Resolution::Unresolved, room)
            == StepPlan::ClearDiscover(discover_spec(agent, room)),
        !guard(lock, agent) ==> plan_spec(Some(lock), agent, Resolution::Unresolved, room)
            == StepPlan::Clear,
{
}

/// A "not in range" status never clears the lock and always calls for
/// exactly one move toward the lock's target, for every task variant.
pub proof fn not_in_range_keeps_and_moves(lock: TaskLock)
    ensures
        settle_spec(lock, Status::NotInRange) == Settled::MoveKeep(lock.target()),
{
}

/// Any other non-success status clears the lock, for every task variant
/// and every such status code.
pub proof fn failure_clears(lock: TaskLock, code: i8)
    ensures
        settle_spec(lock, Status::Failed(code)) == Settled::Clear,
{
}

/// Settle a lock once its attempted action has reported a status.
pub fn after_action(lock: TaskLock, status: Status) -> (r: Settled)
    ensures
        r == settle_spec(lock, status),
{
    match status {
        Status::Success => Settled::Keep,
        Status::NotInRange => {
            let target = match lock {
                TaskLock::Charge(id) => id,
                TaskLock::Upgrade(id) => id,
                TaskLock::Harvest(id) => id,
            };
            Settled::MoveKeep(target)
        },
        Status::Failed(_) => Settled::Clear,
    }
}

} // verus!
