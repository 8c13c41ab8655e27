//! The Production Controller: decides, per production facility, whether
//! to spend available resource creating a new agent this cycle, and with
//! what build specification and name.  Names derive from the cycle
//! counter plus a per-cycle sequence number; a collision reported by the
//! environment is retried under the next sequence number.

use vstd::prelude::*;

verus! {

/// One part of an agent's build specification.
#[derive(Clone, Copy, PartialEq, Eq, Structural, Debug)]
pub enum PartKind {
    /// Lets the agent move.
    Locomotion,
    /// Lets the agent carry resource.
    Cargo,
    /// Lets the agent work on sources and objectives.
    Labor,
}

/// What one part costs to build.
pub open spec fn part_cost_spec(p: PartKind) -> int {
    match p {
        PartKind::Locomotion => 50,
        PartKind::Cargo => 50,
        PartKind::Labor => 100,
    }
}

/// Returns the build cost of one part.
pub fn part_cost(p: PartKind) -> (c: u32)
    ensures
        c == part_cost_spec(p),
{
    match p {
        PartKind::Locomotion => 50,
        PartKind::Cargo => 50,
        PartKind::Labor => 100,
    }
}

/// The summed build cost of a whole specification.
pub open spec fn body_cost_spec(s: Seq<PartKind>) -> int
    decreases s.len(),
{
    if s.len() == 0 {
        0
    } else {
        body_cost_spec(s.drop_last()) + part_cost_spec(s.last())
    }
}

proof fn lemma_body_cost_bounds(s: Seq<PartKind>)
    ensures
        0 <= body_cost_spec(s) <= 100 * s.len(),
    decreases s.len(),
{
    if s.len() > 0 {
        lemma_body_cost_bounds(s.drop_last());
    }
}

/// Sums the build cost of a specification.
pub fn body_cost(parts: &Vec<PartKind>) -> (c: u64)
    requires
        parts@.len() <= 0xffff_ffff,
    ensures
        c == body_cost_spec(parts@),
{
    let n = parts.len();
    let mut c: u64 = 0;
    let mut i: usize = 0;
    while i < n
        invariant
            i <= n,
            n == parts@.len(),
            n <= 0xffff_ffff,
            c == body_cost_spec(parts@.take(i as int)),
            c <= 100 * i,
        decreases n - i,
    {
        proof {
            assert(parts@.take(i + 1).drop_last() =~= parts@.take(i as int));
            assert(parts@.take(i + 1).last() == parts@[i as int]);
        }
        c = c + part_cost(parts[i]) as u64;
        i += 1;
    }
    proof {
        assert(parts@.take(n as int) =~= parts@);
    }
    c
}

/// The fixed build specification every new agent is created with: two
/// locomotion parts, one cargo part, one labor part.
pub open spec fn standard_body_spec() -> Seq<PartKind> {
    seq![PartKind::Locomotion, PartKind::Locomotion, PartKind::Cargo, PartKind::Labor]
}

/// What the fixed build specification costs.
pub open spec fn standard_body_cost() -> int {
    250
}

/// The fixed specification's cost is the sum of its part costs.
pub proof fn lemma_standard_body_cost()
    ensures
        body_cost_spec(standard_body_spec()) == standard_body_cost(),
{
    reveal_with_fuel(body_cost_spec, 5);
    assert(standard_body_spec().drop_last() =~= seq![
        PartKind::Locomotion,
        PartKind::Locomotion,
        PartKind::Cargo,
    ]);
    assert(standard_body_spec().drop_last().drop_last() =~= seq![
        PartKind::Locomotion,
        PartKind::Locomotion,
    ]);
    assert(standard_body_spec().drop_last().drop_last().drop_last() =~= seq![
        PartKind::Locomotion,
    ]);
    assert(standard_body_spec().drop_last().drop_last().drop_last().drop_last()
        =~= Seq::<PartKind>::empty());
}

/// Builds the fixed specification as a vector the host can hand to the
/// environment's create command.
pub fn standard_body() -> (b: Vec<PartKind>)
    ensures
        b@ == standard_body_spec(),
{
    let mut b: Vec<PartKind> = Vec::new();
    b.push(PartKind::Locomotion);
    b.push(PartKind::Locomotion);
    b.push(PartKind::Cargo);
    b.push(PartKind::Labor);
    proof {
        assert(b@ =~= standard_body_spec());
    }
    b
}

/// Whether a facility with this much available resource should request a
/// creation this cycle.
pub open spec fn production_requested(energy: u32) -> bool {
    standard_body_cost() <= energy
}

/// Decides whether a facility spawns this cycle: `Some(cost)` requests
/// one creation with the fixed build specification, and never asks for
/// more than the facility has available.
pub fn plan_production(energy: u32) -> (r: Option<u32>)
    ensures
        r == (if production_requested(energy) {
            Some(250u32)
        } else {
            None::<u32>
        }),
        r matches Some(cost) ==> cost == standard_body_cost() && cost <= energy,
{
    if energy >= 250 {
        Some(250)
    } else {
        None
    }
}

/// The unique name a creation request carries: the current cycle counter
/// plus a per-cycle sequence number.  Two requests of one cycle never
/// share a name because every attempt consumes a fresh sequence number.
#[derive(Clone, Copy, PartialEq, Eq, Structural, Debug)]
pub struct SpawnName {
    pub cycle: u32,
    pub seq: u32,
}

/// The environment's structured reply to a creation request.
#[derive(Clone, Copy, PartialEq, Eq, Structural, Debug)]
pub enum CreateResult {
    /// The creation was accepted.
    Accepted,
    /// The requested name is already taken.
    NameCollision,
    /// The facility lacks the resource after all.
    InsufficientResource,
    /// The request was rejected for any other reason.
    OtherFailure,
}

/// Whether the facility retries its creation request with the next name,
/// or is done for this cycle.
#[derive(Clone, Copy, PartialEq, Eq, Structural, Debug)]
pub enum RetryDecision {
    Retry,
    Settled,
}

/// Per-cycle naming state of the Production Controller: the cycle counter
/// the names derive from, and the next unused sequence number.
pub struct Producer {
    pub cycle: u32,
    pub next_seq: u32,
}

impl Producer {
    /// Starts the controller for one cycle.
    pub fn new(cycle: u32) -> (p: Producer)
        ensures
            p.cycle == cycle,
            p.next_seq == 0,
    {
        Producer { cycle, next_seq: 0 }
    }

    /// The name the next creation request carries.
    pub fn next_name(&self) -> (n: SpawnName)
        ensures
            n.cycle == self.cycle,
            n.seq == self.next_seq,
    {
        SpawnName { cycle: self.cycle, seq: self.next_seq }
    }

    /// Records the environment's reply to a creation request issued under
    /// [`Producer::next_name`].  A name collision moves to the next
    /// sequence number and retries; an accepted creation also consumes
    /// its sequence number so later requests this cycle stay unique; any
    /// other rejection leaves the name free for the next facility and
    /// does not retry.
    pub fn record_result(&mut self, r: CreateResult) -> (d: RetryDecision)
        requires
            old(self).next_seq < 0xffff_ffffu32,
        ensures
            final(self).cycle == old(self).cycle,
            match r {
                CreateResult::NameCollision => d == RetryDecision::Retry && final(self).next_seq
                    == old(self).next_seq + 1,
                CreateResult::Accepted => d == RetryDecision::Settled && final(self).next_seq
                    == old(self).next_seq + 1,
                _ => d == RetryDecision::Settled && final(self).next_seq == old(self).next_seq,
            },
    {
        match r {
            CreateResult::NameCollision => {
                self.next_seq = self.next_seq + 1;
                RetryDecision::Retry
            },
            CreateResult::Accepted => {
                self.next_seq = self.next_seq + 1;
                RetryDecision::Settled
            },
            _ => RetryDecision::Settled,
        }
    }
}

} // verus!
