use creep_core::TaskLock;
use creep_core::discover::{discover, Discovery};
use creep_core::spawn::{body_cost, part_cost, should_spawn, worker_body, BodyPart};
use creep_core::step::{after_action, plan_step, Settled, StepAction, StepPlan};
use creep_core::world::{AgentState, Resolution, RoomSnapshot, Status};

fn carrying(units: u32) -> AgentState {
    AgentState { spawning: false, used_energy: units, free_energy: 50 - units }
}

fn empty_room() -> RoomSnapshot {
    RoomSnapshot { structures: Vec::new(), active_sources: Vec::new() }
}

#[test]
fn discovery_prefers_open_spawn_over_controller() {
    let room = RoomSnapshot {
        structures: vec![
            creep_core::world::Structure::Spawn { id: 1, free_energy: 100 },
            creep_core::world::Structure::Controller { id: 2 },
        ],
        active_sources: Vec::new(),
    };
    assert_eq!(
        discover(&carrying(50), &room),
        Discovery::Assigned(TaskLock::Charge(1))
    );
}

#[test]
fn discovery_prefers_spawn_even_when_listed_after_controller() {
    let room = RoomSnapshot {
        structures: vec![
            creep_core::world::Structure::Controller { id: 2 },
            creep_core::world::Structure::Spawn { id: 1, free_energy: 1 },
        ],
        active_sources: Vec::new(),
    };
    assert_eq!(
        discover(&carrying(10), &room),
        Discovery::Assigned(TaskLock::Charge(1))
    );
}

#[test]
fn discovery_skips_full_spawn() {
    let room = RoomSnapshot {
        structures: vec![
            creep_core::world::Structure::Spawn { id: 1, free_energy: 0 },
            creep_core::world::Structure::Spawn { id: 2, free_energy: 5 },
        ],
        active_sources: Vec::new(),
    };
    assert_eq!(
        discover(&carrying(10), &room),
        Discovery::Assigned(TaskLock::Charge(2))
    );
}

#[test]
fn discovery_falls_back_to_controller() {
    let room = RoomSnapshot {
        structures: vec![
            creep_core::world::Structure::Spawn { id: 1, free_energy: 0 },
            creep_core::world::Structure::Controller { id: 3 },
        ],
        active_sources: Vec::new(),
    };
    assert_eq!(
        discover(&carrying(10), &room),
        Discovery::Assigned(TaskLock::Upgrade(3))
    );
}

#[test]
fn discovery_flags_room_without_sink() {
    let room = RoomSnapshot {
        structures: vec![
            creep_core::world::Structure::Spawn { id: 1, free_energy: 0 },
            creep_core::world::Structure::Other,
        ],
        active_sources: vec![9],
    };
    assert_eq!(discover(&carrying(10), &room), Discovery::NoSink);
}

#[test]
fn discovery_harvests_first_active_source_when_empty_handed() {
    let room = RoomSnapshot {
        structures: vec![creep_core::world::Structure::Spawn { id: 1, free_energy: 100 }],
        active_sources: vec![7, 8],
    };
    assert_eq!(
        discover(&carrying(0), &room),
        Discovery::Assigned(TaskLock::Harvest(7))
    );
}

#[test]
fn discovery_idles_when_empty_handed_and_no_source() {
    assert_eq!(discover(&carrying(0), &empty_room()), Discovery::Idle);
}

#[test]
fn discovery_is_deterministic() {
    let room = RoomSnapshot {
        structures: vec![
            creep_core::world::Structure::Controller { id: 2 },
            creep_core::world::Structure::Spawn { id: 1, free_energy: 30 },
        ],
        active_sources: vec![5],
    };
    let agent = carrying(20);
    let first = discover(&agent, &room);
    let second = discover(&agent, &room);
    assert_eq!(first, second);
}

#[test]
fn drained_charge_and_upgrade_locks_clear_without_action() {
    let agent = carrying(0);
    let room = empty_room();
    let res = Resolution::Resolved { adjacent: true };
    assert_eq!(
        plan_step(Some(TaskLock::Upgrade(4)), &agent, res, &room),
        StepPlan::Clear
    );
    assert_eq!(
        plan_step(Some(TaskLock::Charge(4)), &agent, res, &room),
        StepPlan::Clear
    );
}

#[test]
fn full_harvester_lock_clears_without_action() {
    let agent = AgentState { spawning: false, used_energy: 50, free_energy: 0 };
    let res = Resolution::Resolved { adjacent: true };
    assert_eq!(
        plan_step(Some(TaskLock::Harvest(4)), &agent, res, &empty_room()),
        StepPlan::Clear
    );
}

#[test]
fn unresolved_target_clears_every_variant_without_action() {
    let room = empty_room();
    for lock in [TaskLock::Charge(1), TaskLock::Upgrade(2), TaskLock::Harvest(3)] {
        let agent = carrying(25);
        let plan = plan_step(Some(lock), &agent, Resolution::Unresolved, &room);
        match plan {
            StepPlan::ClearDiscover(_) => {}
            other => panic!("expected the lock cleared, got {:?}", other),
        }
    }
}

#[test]
fn spawning_agent_is_skipped() {
    let agent = AgentState { spawning: true, used_energy: 10, free_energy: 40 };
    let res = Resolution::Resolved { adjacent: true };
    assert_eq!(
        plan_step(Some(TaskLock::Upgrade(2)), &agent, res, &empty_room()),
        StepPlan::Skip
    );
    assert_eq!(
        plan_step(None, &agent, res, &empty_room()),
        StepPlan::Skip
    );
}

#[test]
fn valid_locks_attempt_their_action() {
    let agent = carrying(25);
    let res = Resolution::Resolved { adjacent: true };
    let room = empty_room();
    assert_eq!(
        plan_step(Some(TaskLock::Charge(1)), &agent, res, &room),
        StepPlan::Attempt(StepAction::Transfer(1))
    );
    assert_eq!(
        plan_step(Some(TaskLock::Upgrade(2)), &agent, res, &room),
        StepPlan::Attempt(StepAction::Upgrade(2))
    );
    assert_eq!(
        plan_step(Some(TaskLock::Harvest(3)), &agent, res, &room),
        StepPlan::Attempt(StepAction::Harvest(3))
    );
}

#[test]
fn distant_harvest_target_triggers_approach() {
    let agent = carrying(0);
    let res = Resolution::Resolved { adjacent: false };
    assert_eq!(
        plan_step(Some(TaskLock::Harvest(3)), &agent, res, &empty_room()),
        StepPlan::Approach(3)
    );
}

#[test]
fn not_in_range_moves_and_keeps_every_variant() {
    for lock in [TaskLock::Charge(1), TaskLock::Upgrade(2), TaskLock::Harvest(3)] {
        let target = match lock {
            TaskLock::Charge(id) => id,
            TaskLock::Upgrade(id) => id,
            TaskLock::Harvest(id) => id,
        };
        assert_eq!(
            after_action(lock, Status::NotInRange),
            Settled::MoveKeep(target)
        );
    }
}

#[test]
fn other_failure_clears_every_variant() {
    for lock in [TaskLock::Charge(1), TaskLock::Upgrade(2), TaskLock::Harvest(3)] {
        assert_eq!(after_action(lock, Status::Failed(-7)), Settled::Clear);
        assert_eq!(after_action(lock, Status::Failed(-6)), Settled::Clear);
    }
}

#[test]
fn success_keeps_every_variant() {
    for lock in [TaskLock::Charge(1), TaskLock::Upgrade(2), TaskLock::Harvest(3)] {
        assert_eq!(after_action(lock, Status::Success), Settled::Keep);
    }
}

#[test]
fn worker_body_costs_two_hundred_fifty() {
    let body = worker_body();
    assert_eq!(
        body,
        vec![BodyPart::Move, BodyPart::Move, BodyPart::Carry, BodyPart::Work]
    );
    assert_eq!(body_cost(&body), 250);
    assert_eq!(part_cost(BodyPart::Move), 50);
    assert_eq!(part_cost(BodyPart::Carry), 50);
    assert_eq!(part_cost(BodyPart::Work), 100);
}

#[test]
fn spawn_request_respects_cap_and_energy() {
    assert!(!should_spawn(false, 8, 300, 250));
    assert!(should_spawn(false, 7, 300, 250));
    assert!(should_spawn(false, 7, 250, 250));
    assert!(!should_spawn(false, 7, 249, 250));
    assert!(!should_spawn(true, 7, 300, 250));
    assert!(!should_spawn(false, 9, 1000, 250));
}
