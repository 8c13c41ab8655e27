//! The data the decision logic reads each cycle: positions, persisted
//! references to environment entities, goals, and per-cycle snapshots of
//! agents and rooms.

use vstd::prelude::*;

verus! {

/// A position on the environment's square grid.
#[derive(Clone, Copy, PartialEq, Eq, Structural, Debug)]
pub struct Pos {
    pub x: i32,
    pub y: i32,
}

/// Two positions are adjacent when they are at most one tile apart on each
/// axis (the same tile counts as adjacent).
pub open spec fn adjacent(a: Pos, b: Pos) -> bool {
    &&& -1 <= a.x - b.x <= 1
    &&& -1 <= a.y - b.y <= 1
}

/// Decides adjacency of two positions.
pub fn is_adjacent(a: Pos, b: Pos) -> (r: bool)
    ensures
        r == adjacent(a, b),
{
    let dx: i64 = a.x as i64 - b.x as i64;
    let dy: i64 = a.y as i64 - b.y as i64;
    -1 <= dx && dx <= 1 && -1 <= dy && dy <= 1
}

/// An opaque persisted reference to a servicing objective.  It stays
/// meaningful across cycles; the host resolves it to a live handle (and a
/// current position) at first use each cycle.
#[derive(Clone, Copy, PartialEq, Eq, Structural, Debug)]
pub struct ObjectiveRef {
    pub id: u128,
}

/// An opaque persisted reference to a depletable resource source.
#[derive(Clone, Copy, PartialEq, Eq, Structural, Debug)]
pub struct SourceRef {
    pub id: u128,
}

/// The goal an agent is pursuing.  A goal holds only a persisted
/// reference, never a live handle, so it is safe to keep across cycles.
#[derive(Clone, Copy, PartialEq, Eq, Structural, Debug)]
pub enum Goal {
    /// Deliver held resource to a fixed objective entity.
    ServiceObjective(ObjectiveRef),
    /// Extract resource from a depletable source entity.
    Gather(SourceRef),
}

/// A within-cycle snapshot of one agent, as read from the environment.
/// It must not be retained past the cycle it was taken in.
pub struct AgentView {
    /// The agent's stable identity.
    pub id: String,
    /// Where the agent stands this cycle.
    pub pos: Pos,
    /// How much resource the agent's inventory currently holds.
    pub used: u32,
    /// The inventory's total capacity.
    pub capacity: u32,
    /// True while the agent is still being created and cannot accept
    /// commands.
    pub spawning: bool,
}

/// A within-cycle snapshot of what the agent's room offers, in the
/// environment's (cycle-stable) enumeration order: the servicing
/// objectives, and the sources that are currently active (non-depleted).
pub struct RoomView {
    pub objectives: Vec<ObjectiveRef>,
    pub active_sources: Vec<SourceRef>,
}

} // verus!
