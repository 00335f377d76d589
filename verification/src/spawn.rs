//! The spawning decision: whether a spawn point should request creation of
//! a new agent this cycle.
//!
//! A spawn that is already busy never requests.  Otherwise a new agent is
//! requested exactly when the controlled-agent count is below the fixed
//! cap and the room's available energy covers the cost of the fixed
//! worker body.

use vstd::prelude::*;

verus! {

/// The fixed cap on controlled agents; at or above it no new agent is
/// requested.
pub const AGENT_CAP: usize = 8;

/// One segment of an agent's body.
#[derive(Clone, Copy, PartialEq, Eq, Structural, Debug)]
pub enum BodyPart {
    Move,
    Carry,
    Work,
}

/// The energy cost of one body segment.
pub open spec fn part_cost_spec(p: BodyPart) -> u32 {
    match p {
        BodyPart::Move => 50,
        BodyPart::Carry => 50,
        BodyPart::Work => 100,
    }
}

/// The total energy cost of a body composition.
pub open spec fn body_cost_spec(body: Seq<BodyPart>) -> int
    decreases body.len(),
{
    if body.len() == 0 {
        0
    } else {
        body_cost_spec(body.drop_last()) + part_cost_spec(body.last())
    }
}

/// The energy cost of one body segment.
pub fn part_cost(p: BodyPart) -> (r: u32)
    ensures
        r == part_cost_spec(p),
{
    match p {
        BodyPart::Move => 50,
        BodyPart::Carry => 50,
        BodyPart::Work => 100,
    }
}

/// The total energy cost of a body composition.
pub fn body_cost(body: &Vec<BodyPart>) -> (r: u32)
    requires
        body_cost_spec(body@) <= u32::MAX,
    ensures
        r == body_cost_spec(body@),
{
    let mut total: u32 = 0;
    let mut i: usize = 0;
    while i < body.len()
        invariant
            i <= body@.len(),
            total == body_cost_spec(body@.take(i as int)),
            body_cost_spec(body@) <= u32::MAX,
        decreases body@.len() - i,
    {
        proof {
            assert(body@.take(i + 1).drop_last() =~= body@.take(i as int));
            assert(body@.take(i + 1).last() == body@[i as int]);
            lemma_body_cost_prefix(body@, i + 1);
        }
        total = total + part_cost(body[i]);
        i = i + 1;
    }
    proof {
        assert(body@.take(body@.len() as int) =~= body@);
    }
    total
}

/// Every body segment costs a non-negative amount, so the cost of a
/// prefix never exceeds the cost of the whole body.
proof fn lemma_body_cost_prefix(body: Seq<BodyPart>, n: int)
    requires
        0 <= n <= body.len(),
    ensures
        0 <= body_cost_spec(body.take(n)) <= body_cost_spec(body),
    decreases body.len(),
{
    if body.len() == 0 {
    } else if n == body.len() {
        assert(body.take(n) =~= body);
        lemma_body_cost_prefix(body.drop_last(), n - 1);
        assert(body.drop_last().take(n - 1) =~= body.drop_last());
    } else {
        assert(body.drop_last().take(n) =~= body.take(n));
        lemma_body_cost_prefix(body.drop_last(), n);
    }
}

/// The fixed body composition every new agent is created with.
pub fn worker_body() -> (r: Vec<BodyPart>)
    ensures
        r@ =~= seq![BodyPart::Move, BodyPart::Move, BodyPart::Carry, BodyPart::Work],
        body_cost_spec(r@) == 250,
{
    let body: Vec<BodyPart> = vec![
        BodyPart::Move,
        BodyPart::Move,
        BodyPart::Carry,
        BodyPart::Work,
    ];
    proof {
        reveal_with_fuel(body_cost_spec, 5);
        let s = seq![BodyPart::Move, BodyPart::Move, BodyPart::Carry, BodyPart::Work];
        assert(body@ =~= s);
        assert(s.drop_last() =~= seq![BodyPart::Move, BodyPart::Move, BodyPart::Carry]);
        assert(s.drop_last().drop_last() =~= seq![BodyPart::Move, BodyPart::Move]);
        assert(s.drop_last().drop_last().drop_last() =~= seq![BodyPart::Move]);
        assert(s.drop_last().drop_last().drop_last().drop_last() =~= Seq::<BodyPart>::empty());
        assert(body_cost_spec(s) == 250);
    }
    body
}

/// Whether a spawn point should request a new agent: it must not be busy
/// spawning, the controlled-agent count must be under the cap, and the
/// room's available energy must cover the body cost.
pub fn should_spawn(spawn_busy: bool, agent_count: usize, energy_available: u32, cost: u32) -> (r:
    bool)
    ensures
        r == (!spawn_busy && agent_count < AGENT_CAP && energy_available >= cost),
{
    !spawn_busy && agent_count < AGENT_CAP && energy_available >= cost
}

} // verus!
