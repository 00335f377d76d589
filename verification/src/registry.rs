//! The target registry: the process-lifetime store of agent → task lock.
//!
//! Keys are stable agent identifiers; at most one lock is held per agent
//! at any time.  Entries are created by discovery, never mutated in place
//! — only replaced wholesale — and removed when a step finds the task
//! complete, impossible or failed.  The registry survives across cycles
//! within one process and is empty after a restart.

use std::collections::HashMap;
use vstd::prelude::*;

use crate::TaskLock;
use crate::discover::Discovery;
use crate::step::{Settled, StepPlan};

verus! {

broadcast use vstd::std_specs::hash::group_hash_axioms;

/// The store of current task locks, one per agent at most.
#[derive(Debug)]
pub struct Registry {
    map: HashMap<u128, TaskLock>,
}

impl View for Registry {
    type V = Map<u128, TaskLock>;

    closed spec fn view(&self) -> Map<u128, TaskLock> {
        self.map@
    }
}

/// What a discovery outcome does to the registry for one agent: an
/// assignment records the new lock, anything else leaves the store alone.
pub open spec fn discovery_effect(
    m: Map<u128, TaskLock>,
    agent: u128,
    d: Discovery,
) -> Map<u128, TaskLock> {
    match d {
        Discovery::Assigned(lock) => m.insert(agent, lock),
        _ => m,
    }
}

/// What a step plan does to the registry for one agent.
pub open spec fn plan_effect(
    m: Map<u128, TaskLock>,
    agent: u128,
    plan: StepPlan,
) -> Map<u128, TaskLock> {
    match plan {
        StepPlan::Skip => m,
        StepPlan::Discover(d) => discovery_effect(m, agent, d),
        StepPlan::Clear => m.remove(agent),
        StepPlan::ClearDiscover(d) => discovery_effect(m.remove(agent), agent, d),
        StepPlan::Approach(_) => m,
        StepPlan::Attempt(_) => m,
    }
}

/// What a settled action does to the registry for one agent: only a
/// cleared lock changes the store.
pub open spec fn settled_effect(
    m: Map<u128, TaskLock>,
    agent: u128,
    s: Settled,
) -> Map<u128, TaskLock> {
    match s {
        Settled::Clear => m.remove(agent),
        _ => m,
    }
}

/// One agent's full pass through a cycle: the plan, and — only when the
/// plan attempted an action — how the reported status settled the lock.
#[derive(Clone, Copy, PartialEq, Eq, Structural, Debug)]
pub struct StepRecord {
    pub agent: u128,
    pub plan: StepPlan,
    pub settled: Option<Settled>,
}

/// The registry change of one agent's pass.
pub open spec fn step_effect(m: Map<u128, TaskLock>, rec: StepRecord) -> Map<u128, TaskLock> {
    let after_plan = plan_effect(m, rec.agent, rec.plan);
    match rec.settled {
        Some(s) => settled_effect(after_plan, rec.agent, s),
        None => after_plan,
    }
}

/// The registry change of one whole cycle: the agents' passes applied in
/// enumeration order.  The cycle driver touches the registry through
/// nothing else.
pub open spec fn cycle_effect(
    m: Map<u128, TaskLock>,
    recs: Seq<StepRecord>,
) -> Map<u128, TaskLock>
    decreases recs.len(),
{
    if recs.len() == 0 {
        m
    } else {
        cycle_effect(step_effect(m, recs[0]), recs.drop_first())
    }
}

impl Registry {
    /// A fresh, empty registry, as after a process restart.
    pub fn new() -> (r: Registry)
        ensures
            r@ == Map::<u128, TaskLock>::empty(),
    {
        Registry { map: HashMap::new() }
    }

    /// The agent's current lock, if it holds one.
    pub fn lock_of(&self, agent: u128) -> (r: Option<TaskLock>)
        ensures
            r == if self@.contains_key(agent) {
                Some(self@[agent])
            } else {
                None::<TaskLock>
            },
    {
        match self.map.get(&agent) {
            Some(lock) => Some(*lock),
            None => None,
        }
    }

    /// How many agents currently hold a lock.
    pub fn len(&self) -> (r: usize)
        ensures
            r == self@.dom().len(),
    {
        self.map.len()
    }

    /// Record a discovery outcome for an agent.
    pub fn apply_discovery(&mut self, agent: u128, d: Discovery)
        ensures
            final(self)@ == discovery_effect(old(self)@, agent, d),
    {
        match d {
            Discovery::Assigned(lock) => {
                self.map.insert(agent, lock);
            },
            _ => {},
        }
    }

    /// Record a step plan for an agent.
    pub fn apply_plan(&mut self, agent: u128, plan: StepPlan)
        ensures
            final(self)@ == plan_effect(old(self)@, agent, plan),
    {
        match plan {
            StepPlan::Clear => {
                self.map.remove(&agent);
            },
            StepPlan::Discover(d) => {
                self.apply_discovery(agent, d);
            },
            StepPlan::ClearDiscover(d) => {
                self.map.remove(&agent);
                self.apply_discovery(agent, d);
            },
            _ => {},
        }
    }

    /// Record the settled fate of an agent's lock after its action.
    pub fn apply_settled(&mut self, agent: u128, s: Settled)
        ensures
            final(self)@ == settled_effect(old(self)@, agent, s),
    {
        match s {
            Settled::Clear => {
                self.map.remove(&agent);
            },
            _ => {},
        }
    }
}

/// A cycle with no controlled agents runs no per-agent pass, and the
/// driver touches the registry through nothing else: the registry is left
/// exactly as it was.
pub proof fn empty_cycle_preserves_registry(m: Map<u128, TaskLock>)
    ensures
        cycle_effect(m, Seq::<StepRecord>::empty()) == m,
{
}

} // verus!
