//! The Cycle Orchestrator's per-agent step, wired to the Target Store.
//!
//! Each cycle, after production ran, the host walks the live agents in
//! the environment's enumeration order and, for each one, calls
//! [`begin_agent`], performs the command it returns, and — when an
//! action was attempted — feeds the environment's reply to
//! [`finish_act`] and performs the move that may follow.  Every mutation
//! of the Target Store happens inside those two calls, so a cycle never
//! leaves the store half-updated.

use vstd::prelude::*;

use crate::engine::{after_act, after_act_model, first_step, first_step_model, ActResult,
    EngineStep, Outcome};
use crate::goal::{AgentView, Goal, Pos, RoomView};
use crate::policy::{assign, assign_model};
use crate::store::TargetStore;

verus! {

/// The command the host must perform right after [`begin_agent`].
#[derive(Clone, Copy, PartialEq, Eq, Structural, Debug)]
pub enum Directive {
    /// Issue nothing for this agent this cycle.
    DoNothing,
    /// Issue a move-toward command to the agent's resolved target.
    MoveToward,
    /// Attempt the goal's action on the resolved target, then hand the
    /// reply to [`finish_act`].
    AttemptAction,
}

/// What [`begin_agent`] does to the store and returns.
///
/// A spawning agent is skipped entirely.  An agent with a stored goal is
/// driven by the Execution Engine's first step: an abandoned goal leaves
/// the store, a kept goal stays under the identical value.  An idle agent
/// is offered a fresh assignment, which is only executed from the next
/// cycle on: a fresh goal could equally well be executed in the cycle it
/// was chosen, but deferring it keeps the per-agent step simpler, at the
/// price of a one-cycle latency.
pub open spec fn begin_model(store0: Map<Seq<char>, Goal>, agent: AgentView, room: RoomView,
    target: Option<Pos>) -> (Map<Seq<char>, Goal>, Directive) {
    if agent.spawning {
        (store0, Directive::DoNothing)
    } else if store0.contains_key(agent.id@) {
        match first_step_model(agent, store0[agent.id@], target) {
            EngineStep::Abandon => (store0.remove(agent.id@), Directive::DoNothing),
            EngineStep::MoveToward => (store0, Directive::MoveToward),
            EngineStep::AttemptAction => (store0, Directive::AttemptAction),
        }
    } else {
        match assign_model(agent, room) {
            Some(g) => (store0.insert(agent.id@, g), Directive::DoNothing),
            None => (store0, Directive::DoNothing),
        }
    }
}

/// Runs the first half of one agent's per-cycle step, per
/// [`begin_model`].  `target` is the result of resolving the stored
/// goal's persisted reference (irrelevant and ignored when no goal is
/// stored).
pub fn begin_agent(store: &mut TargetStore, agent: &AgentView, room: &RoomView,
    target: Option<Pos>) -> (d: Directive)
    requires
        old(store).wf(),
    ensures
        final(store).wf(),
        (final(store)@, d) == begin_model(old(store)@, *agent, *room, target),
{
    let ghost m0 = store@;
    if agent.spawning {
        return Directive::DoNothing;
    }
    match store.get_and_remove(&agent.id) {
        Some(goal) => {
            match first_step(agent, &goal, target) {
                EngineStep::Abandon => Directive::DoNothing,
                EngineStep::MoveToward => {
                    store.insert(&agent.id, goal);
                    proof {
                        assert(m0.remove(agent.id@).insert(agent.id@, goal) =~= m0);
                    }
                    Directive::MoveToward
                },
                EngineStep::AttemptAction => {
                    store.insert(&agent.id, goal);
                    proof {
                        assert(m0.remove(agent.id@).insert(agent.id@, goal) =~= m0);
                    }
                    Directive::AttemptAction
                },
            }
        },
        None => {
            proof {
                assert(m0.remove(agent.id@) =~= m0);
            }
            match assign(agent, room) {
                Some(g) => {
                    store.insert(&agent.id, g);
                    Directive::DoNothing
                },
                None => Directive::DoNothing,
            }
        },
    }
}

/// What [`finish_act`] does to the store and returns: a goal whose action
/// attempt came back `Continue` survives unchanged, any other reply
/// evicts it; the returned flag says whether a move-toward command is
/// issued in the action's stead.
pub open spec fn finish_model(store1: Map<Seq<char>, Goal>, id: Seq<char>, r: ActResult) -> (
    Map<Seq<char>, Goal>,
    bool,
) {
    if store1.contains_key(id) {
        let f = after_act_model(store1[id], r);
        if f.outcome is Continue {
            (store1, f.issue_move)
        } else {
            (store1.remove(id), f.issue_move)
        }
    } else {
        (store1, false)
    }
}

/// Settles an attempted action for the agent named `id`, per
/// [`finish_model`]: reads the stored goal, applies the Execution
/// Engine's follow-up, and returns whether the host must issue a
/// move-toward command.
pub fn finish_act(store: &mut TargetStore, id: &String, r: ActResult) -> (issue_move: bool)
    requires
        old(store).wf(),
    ensures
        final(store).wf(),
        (final(store)@, issue_move) == finish_model(old(store)@, id@, r),
{
    let ghost m0 = store@;
    match store.get_and_remove(id) {
        Some(goal) => {
            let f = after_act(&goal, r);
            match f.outcome {
                Outcome::Continue => {
                    store.insert(id, goal);
                    proof {
                        assert(m0.remove(id@).insert(id@, goal) =~= m0);
                    }
                },
                _ => {},
            }
            f.issue_move
        },
        None => {
            proof {
                assert(m0.remove(id@) =~= m0);
            }
            false
        },
    }
}

/// How often the peripheral maintenance task runs, in cycles, and on
/// which phase of the period it falls.
pub open spec fn maintenance_due(time: u32) -> bool {
    time % 32 == 3
}

/// Whether this cycle runs the peripheral maintenance task that prunes
/// stored entries of agents that no longer live
/// ([`TargetStore::retain_live`]).
pub fn should_run_maintenance(time: u32) -> (r: bool)
    ensures
        r == maintenance_due(time),
{
    time % 32 == 3
}

} // verus!
