//! The engine's cycle-level guarantees, stated and proved over the
//! decision models: what one agent's per-cycle step does to the Target
//! Store and to the commands the host issues.

use vstd::prelude::*;

use crate::cycle::{begin_model, finish_model, Directive};
use crate::engine::{execution_outcome, ActResult, Outcome};
use crate::goal::{AgentView, Goal, Pos, RoomView};
use crate::policy::assign_model;

verus! {

/// Everything one agent's per-cycle step amounts to, over both phases:
/// the store it leaves behind, whether an action was attempted, whether
/// the environment accepted it, and whether a move-toward command was
/// issued.
pub struct AgentCycle {
    pub store: Map<Seq<char>, Goal>,
    pub act_attempted: bool,
    pub act_accepted: bool,
    pub moved: bool,
}

/// Composes the two phases of one agent's step exactly as the host runs
/// them: [`crate::cycle::begin_agent`], then — only when an action was
/// directed — the action itself and [`crate::cycle::finish_act`] with
/// the environment's reply `r`, then the move that may follow.
pub open spec fn agent_cycle_model(store0: Map<Seq<char>, Goal>, agent: AgentView,
    room: RoomView, target: Option<Pos>, r: ActResult) -> AgentCycle {
    let (s1, d) = begin_model(store0, agent, room, target);
    match d {
        Directive::DoNothing => AgentCycle {
            store: s1,
            act_attempted: false,
            act_accepted: false,
            moved: false,
        },
        Directive::MoveToward => AgentCycle {
            store: s1,
            act_attempted: false,
            act_accepted: false,
            moved: true,
        },
        Directive::AttemptAction => {
            let (s2, mv) = finish_model(s1, agent.id@, r);
            AgentCycle {
                store: s2,
                act_attempted: true,
                act_accepted: r is Success,
                moved: mv,
            }
        },
    }
}

/// Idempotent re-assignment: an agent with no stored goal and no viable
/// objective or source remains idle after one cycle — the Target Store
/// is unchanged and no command is issued.
pub proof fn lemma_idle_agent_stays_idle(store0: Map<Seq<char>, Goal>, agent: AgentView,
    room: RoomView, target: Option<Pos>, r: ActResult)
    requires
        !store0.contains_key(agent.id@),
        assign_model(agent, room) is None,
    ensures
        agent_cycle_model(store0, agent, room, target, r).store == store0,
        !agent_cycle_model(store0, agent, room, target, r).act_attempted,
        !agent_cycle_model(store0, agent, room, target, r).moved,
{
}

/// What the store holds after an agent with a stored goal took its step:
/// a `Continue` execution keeps the store exactly as it was, any other
/// execution removes exactly that agent's entry.
pub proof fn lemma_store_after_execution(store0: Map<Seq<char>, Goal>, agent: AgentView,
    room: RoomView, target: Option<Pos>, r: ActResult)
    requires
        !agent.spawning,
        store0.contains_key(agent.id@),
    ensures
        agent_cycle_model(store0, agent, room, target, r).store == (if execution_outcome(
            agent,
            store0[agent.id@],
            target,
            r,
        ) is Continue {
            store0
        } else {
            store0.remove(agent.id@)
        }),
{
}

/// Goal stickiness: an agent whose execution yields `Continue` keeps the
/// identical goal value in the Target Store after the cycle.
pub proof fn lemma_goal_stickiness(store0: Map<Seq<char>, Goal>, agent: AgentView,
    room: RoomView, target: Option<Pos>, r: ActResult)
    requires
        !agent.spawning,
        store0.contains_key(agent.id@),
        execution_outcome(agent, store0[agent.id@], target, r) is Continue,
    ensures
        agent_cycle_model(store0, agent, room, target, r).store == store0,
        agent_cycle_model(store0, agent, room, target, r).store[agent.id@]
            == store0[agent.id@],
{
    lemma_store_after_execution(store0, agent, room, target, r);
}

/// Fail-closed eviction: for every goal kind, if resolving the goal's
/// persisted reference fails, the Target Store no longer contains an
/// entry for that agent after the cycle, and no command was issued.
pub proof fn lemma_fail_closed_eviction(store0: Map<Seq<char>, Goal>, agent: AgentView,
    room: RoomView, r: ActResult)
    requires
        !agent.spawning,
        store0.contains_key(agent.id@),
    ensures
        agent_cycle_model(store0, agent, room, None::<Pos>, r).store == store0.remove(
            agent.id@,
        ),
        !agent_cycle_model(store0, agent, room, None::<Pos>, r).store.contains_key(agent.id@),
        !agent_cycle_model(store0, agent, room, None::<Pos>, r).act_attempted,
        !agent_cycle_model(store0, agent, room, None::<Pos>, r).moved,
{
}

/// Priority order: an agent with positive inventory, offered both a
/// servicing objective and an active source, is assigned a
/// `ServiceObjective` goal, never `Gather`.
pub proof fn lemma_priority_order(agent: AgentView, room: RoomView)
    requires
        agent.used > 0,
        room.objectives@.len() > 0,
        room.active_sources@.len() > 0,
    ensures
        assign_model(agent, room) == Some(Goal::ServiceObjective(room.objectives@[0])),
        !(assign_model(agent, room) matches Some(g) && g is Gather),
{
}

/// Isolation: one agent's per-cycle step never touches another agent's
/// entry in the Target Store, whatever the step did.
pub proof fn lemma_store_isolation(store0: Map<Seq<char>, Goal>, agent: AgentView,
    room: RoomView, target: Option<Pos>, r: ActResult, other: Seq<char>)
    requires
        other != agent.id@,
    ensures
        agent_cycle_model(store0, agent, room, target, r).store.contains_key(other)
            == store0.contains_key(other),
        store0.contains_key(other) ==> agent_cycle_model(
            store0,
            agent,
            room,
            target,
            r,
        ).store[other] == store0[other],
{
}

/// At most one command per agent per cycle: an agent's step never issues
/// a mutating command twice — a move is never paired with an accepted
/// action — and an execution that yields `Continue` issues exactly one of
/// the two.  An agent that had no stored goal issues nothing, whether or
/// not a fresh goal was assigned.
pub proof fn lemma_one_command_per_cycle(store0: Map<Seq<char>, Goal>, agent: AgentView,
    room: RoomView, target: Option<Pos>, r: ActResult)
    ensures
        !(agent_cycle_model(store0, agent, room, target, r).act_accepted
            && agent_cycle_model(store0, agent, room, target, r).moved),
        !store0.contains_key(agent.id@) ==> !agent_cycle_model(
            store0,
            agent,
            room,
            target,
            r,
        ).act_attempted && !agent_cycle_model(store0, agent, room, target, r).moved,
        !agent.spawning && store0.contains_key(agent.id@) && execution_outcome(
            agent,
            store0[agent.id@],
            target,
            r,
        ) is Continue ==> (agent_cycle_model(store0, agent, room, target, r).act_accepted
            || agent_cycle_model(store0, agent, room, target, r).moved),
{
}

} // verus!
