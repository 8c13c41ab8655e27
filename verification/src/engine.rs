//! The Goal Execution Engine: per-goal behavior for one unit of progress.
//!
//! The engine decides in two phases, with the host acting in between.
//! [`first_step`] looks at the agent, its goal, and the outcome of
//! resolving the goal's persisted reference, and decides whether to
//! abandon the goal, attempt the goal's action, or move toward the
//! target.  When an action was attempted, [`after_act`] reads the
//! environment's reply and decides whether a move is issued instead and
//! whether the goal survives.

use vstd::prelude::*;

use crate::goal::{adjacent, AgentView, Goal, Pos};

verus! {

/// The engine's first decision for an agent holding a goal.
#[derive(Clone, Copy, PartialEq, Eq, Structural, Debug)]
pub enum EngineStep {
    /// The goal is no longer worth pursuing: drop it, issue nothing.
    Abandon,
    /// Attempt the goal's action on the resolved target.
    AttemptAction,
    /// Issue a move-toward command; the goal stays active.
    MoveToward,
}

/// The environment's structured reply to an attempted action.
#[derive(Clone, Copy, PartialEq, Eq, Structural, Debug)]
pub enum ActResult {
    /// The action was accepted.
    Success,
    /// The action was rejected because the target is out of range.
    NotInRange,
    /// The action was rejected for any other reason.
    OtherFailure,
}

/// How one unit of goal progress ended.
#[derive(Clone, Copy, PartialEq, Eq, Structural, Debug)]
pub enum Outcome {
    /// The goal is still viable; keep it for the next cycle.
    Continue,
    /// The goal was fully achieved.  No goal kind in this model reports
    /// it, but the sum stays closed over every way an execution may end.
    Complete,
    /// The goal failed a precondition, lost its target, or was rejected:
    /// drop it and re-evaluate next cycle.
    Invalid,
}

/// What [`after_act`] decides: whether a move-toward command is issued in
/// the action's stead, and whether the goal survives.
#[derive(Clone, Copy, PartialEq, Eq, Structural, Debug)]
pub struct ActFollowUp {
    pub issue_move: bool,
    pub outcome: Outcome,
}

/// What [`first_step`] decides.  `target` is the result of resolving the
/// goal's persisted reference this cycle: the target's current position,
/// or `None` when the entity no longer exists.
///
/// A service goal needs the agent to hold resource; a gather goal needs
/// free capacity.  A failed precondition or a failed resolution abandons
/// the goal (fail closed).  Gathering requires standing next to the
/// source, so the engine moves first when it is not adjacent; servicing
/// attempts the action outright and lets the environment report an
/// out-of-range target.
pub open spec fn first_step_model(agent: AgentView, goal: Goal, target: Option<Pos>) -> EngineStep {
    match goal {
        Goal::ServiceObjective(_) => if agent.used == 0 {
            EngineStep::Abandon
        } else if target is None {
            EngineStep::Abandon
        } else {
            EngineStep::AttemptAction
        },
        Goal::Gather(_) => if agent.used >= agent.capacity {
            EngineStep::Abandon
        } else {
            match target {
                None => EngineStep::Abandon,
                Some(p) => if adjacent(agent.pos, p) {
                    EngineStep::AttemptAction
                } else {
                    EngineStep::MoveToward
                },
            }
        },
    }
}

/// Decides the engine's first step for an agent and its goal, per
/// [`first_step_model`].
pub fn first_step(agent: &AgentView, goal: &Goal, target: Option<Pos>) -> (r: EngineStep)
    ensures
        r == first_step_model(*agent, *goal, target),
{
    match goal {
        Goal::ServiceObjective(_) => {
            if agent.used == 0 {
                EngineStep::Abandon
            } else if target.is_none() {
                EngineStep::Abandon
            } else {
                EngineStep::AttemptAction
            }
        },
        Goal::Gather(_) => {
            if agent.used >= agent.capacity {
                EngineStep::Abandon
            } else {
                match target {
                    None => EngineStep::Abandon,
                    Some(p) => {
                        if crate::goal::is_adjacent(agent.pos, p) {
                            EngineStep::AttemptAction
                        } else {
                            EngineStep::MoveToward
                        }
                    },
                }
            }
        },
    }
}

/// What [`after_act`] decides from the environment's reply.
///
/// Servicing recovers from an out-of-range rejection by moving toward the
/// objective, and survives success (objectives are repeatedly
/// serviceable); any other rejection abandons the goal.  Gathering is
/// only attempted from an adjacent tile, so any rejection abandons the
/// goal.
pub open spec fn after_act_model(goal: Goal, r: ActResult) -> ActFollowUp {
    match goal {
        Goal::ServiceObjective(_) => match r {
            ActResult::Success => ActFollowUp { issue_move: false, outcome: Outcome::Continue },
            ActResult::NotInRange => ActFollowUp { issue_move: true, outcome: Outcome::Continue },
            ActResult::OtherFailure => ActFollowUp {
                issue_move: false,
                outcome: Outcome::Invalid,
            },
        },
        Goal::Gather(_) => match r {
            ActResult::Success => ActFollowUp { issue_move: false, outcome: Outcome::Continue },
            _ => ActFollowUp { issue_move: false, outcome: Outcome::Invalid },
        },
    }
}

/// Settles an attempted action from the environment's reply, per
/// [`after_act_model`].
pub fn after_act(goal: &Goal, r: ActResult) -> (f: ActFollowUp)
    ensures
        f == after_act_model(*goal, r),
{
    match goal {
        Goal::ServiceObjective(_) => match r {
            ActResult::Success => ActFollowUp { issue_move: false, outcome: Outcome::Continue },
            ActResult::NotInRange => ActFollowUp { issue_move: true, outcome: Outcome::Continue },
            ActResult::OtherFailure => ActFollowUp {
                issue_move: false,
                outcome: Outcome::Invalid,
            },
        },
        Goal::Gather(_) => match r {
            ActResult::Success => ActFollowUp { issue_move: false, outcome: Outcome::Continue },
            _ => ActFollowUp { issue_move: false, outcome: Outcome::Invalid },
        },
    }
}

/// How one execution of a goal ends, over both phases: the first step's
/// decision, and — when an action was attempted — the environment's
/// reply.
pub open spec fn execution_outcome(agent: AgentView, goal: Goal, target: Option<Pos>,
    r: ActResult) -> Outcome {
    match first_step_model(agent, goal, target) {
        EngineStep::Abandon => Outcome::Invalid,
        EngineStep::MoveToward => Outcome::Continue,
        EngineStep::AttemptAction => after_act_model(goal, r).outcome,
    }
}

} // verus!
