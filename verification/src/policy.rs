//! The Goal Assignment Policy: pure decision logic that picks a new goal
//! for an idle agent from what its room currently offers, or leaves the
//! agent idle when nothing suits it.

use vstd::prelude::*;

use crate::goal::{AgentView, Goal, RoomView};

verus! {

/// What [`assign`] decides, evaluated in fixed priority order:
/// an agent holding resource delivers it to the first servicing objective
/// in enumeration order; an empty agent gathers from the first active
/// source; otherwise the agent stays idle.
pub open spec fn assign_model(agent: AgentView, room: RoomView) -> Option<Goal> {
    if agent.used > 0 {
        if room.objectives@.len() > 0 {
            Some(Goal::ServiceObjective(room.objectives@[0]))
        } else {
            None
        }
    } else {
        if room.active_sources@.len() > 0 {
            Some(Goal::Gather(room.active_sources@[0]))
        } else {
            None
        }
    }
}

/// Chooses a goal for an agent that holds none, per [`assign_model`]:
/// `None` means the agent stays idle this cycle.
pub fn assign(agent: &AgentView, room: &RoomView) -> (r: Option<Goal>)
    ensures
        r == assign_model(*agent, *room),
{
    if agent.used > 0 {
        if room.objectives.len() > 0 {
            Some(Goal::ServiceObjective(room.objectives[0]))
        } else {
            None
        }
    } else {
        if room.active_sources.len() > 0 {
            Some(Goal::Gather(room.active_sources[0]))
        } else {
            None
        }
    }
}

} // verus!
