use colony_core::engine::{after_act, first_step, ActResult, EngineStep, Outcome};
use colony_core::goal::{
    is_adjacent, AgentView, Goal, ObjectiveRef, Pos, RoomView, SourceRef,
};
use colony_core::policy::assign;

fn agent(used: u32, capacity: u32) -> AgentView {
    AgentView {
        id: String::from("agent-1"),
        pos: Pos { x: 10, y: 10 },
        used,
        capacity,
        spawning: false,
    }
}

fn room(objectives: Vec<u128>, sources: Vec<u128>) -> RoomView {
    RoomView {
        objectives: objectives.into_iter().map(|id| ObjectiveRef { id }).collect(),
        active_sources: sources.into_iter().map(|id| SourceRef { id }).collect(),
    }
}

#[test]
fn adjacency_is_chebyshev_one() {
    let center = Pos { x: 10, y: 10 };
    assert!(is_adjacent(center, Pos { x: 10, y: 10 }));
    assert!(is_adjacent(center, Pos { x: 11, y: 9 }));
    assert!(is_adjacent(center, Pos { x: 9, y: 11 }));
    assert!(!is_adjacent(center, Pos { x: 12, y: 10 }));
    assert!(!is_adjacent(center, Pos { x: 10, y: 8 }));
}

// priority order: with resource on board and both kinds available, the
// objective wins, never the source
#[test]
fn assign_prefers_objective_when_carrying() {
    let r = assign(&agent(10, 50), &room(vec![7, 8], vec![3, 4]));
    assert_eq!(r, Some(Goal::ServiceObjective(ObjectiveRef { id: 7 })));
}

#[test]
fn assign_picks_first_source_when_empty() {
    let r = assign(&agent(0, 50), &room(vec![7, 8], vec![3, 4]));
    assert_eq!(r, Some(Goal::Gather(SourceRef { id: 3 })));
}

#[test]
fn assign_carrying_with_no_objective_stays_idle() {
    let r = assign(&agent(10, 50), &room(vec![], vec![3]));
    assert_eq!(r, None);
}

#[test]
fn assign_empty_with_no_source_stays_idle() {
    let r = assign(&agent(0, 50), &room(vec![], vec![]));
    assert_eq!(r, None);
}

#[test]
fn service_without_resource_is_abandoned() {
    let goal = Goal::ServiceObjective(ObjectiveRef { id: 1 });
    let step = first_step(&agent(0, 50), &goal, Some(Pos { x: 11, y: 10 }));
    assert_eq!(step, EngineStep::Abandon);
}

#[test]
fn service_with_unresolved_target_is_abandoned() {
    let goal = Goal::ServiceObjective(ObjectiveRef { id: 1 });
    assert_eq!(first_step(&agent(10, 50), &goal, None), EngineStep::Abandon);
}

#[test]
fn service_with_target_attempts_action() {
    let goal = Goal::ServiceObjective(ObjectiveRef { id: 1 });
    // servicing attempts outright, even from far away
    let step = first_step(&agent(10, 50), &goal, Some(Pos { x: 40, y: 40 }));
    assert_eq!(step, EngineStep::AttemptAction);
}

#[test]
fn gather_with_full_inventory_is_abandoned() {
    let goal = Goal::Gather(SourceRef { id: 1 });
    let step = first_step(&agent(50, 50), &goal, Some(Pos { x: 11, y: 10 }));
    assert_eq!(step, EngineStep::Abandon);
}

#[test]
fn gather_with_unresolved_target_is_abandoned() {
    let goal = Goal::Gather(SourceRef { id: 1 });
    assert_eq!(first_step(&agent(0, 50), &goal, None), EngineStep::Abandon);
}

#[test]
fn gather_moves_when_not_adjacent() {
    let goal = Goal::Gather(SourceRef { id: 1 });
    let step = first_step(&agent(0, 50), &goal, Some(Pos { x: 13, y: 10 }));
    assert_eq!(step, EngineStep::MoveToward);
}

#[test]
fn gather_acts_when_adjacent() {
    let goal = Goal::Gather(SourceRef { id: 1 });
    let step = first_step(&agent(0, 50), &goal, Some(Pos { x: 11, y: 11 }));
    assert_eq!(step, EngineStep::AttemptAction);
}

#[test]
fn service_out_of_range_moves_and_continues() {
    let goal = Goal::ServiceObjective(ObjectiveRef { id: 1 });
    let f = after_act(&goal, ActResult::NotInRange);
    assert!(f.issue_move);
    assert_eq!(f.outcome, Outcome::Continue);
}

#[test]
fn service_success_continues_without_move() {
    let goal = Goal::ServiceObjective(ObjectiveRef { id: 1 });
    let f = after_act(&goal, ActResult::Success);
    assert!(!f.issue_move);
    assert_eq!(f.outcome, Outcome::Continue);
}

#[test]
fn service_other_failure_is_invalid() {
    let goal = Goal::ServiceObjective(ObjectiveRef { id: 1 });
    let f = after_act(&goal, ActResult::OtherFailure);
    assert!(!f.issue_move);
    assert_eq!(f.outcome, Outcome::Invalid);
}

#[test]
fn gather_success_continues() {
    let goal = Goal::Gather(SourceRef { id: 1 });
    let f = after_act(&goal, ActResult::Success);
    assert!(!f.issue_move);
    assert_eq!(f.outcome, Outcome::Continue);
}

#[test]
fn gather_any_failure_is_invalid() {
    let goal = Goal::Gather(SourceRef { id: 1 });
    assert_eq!(after_act(&goal, ActResult::NotInRange).outcome, Outcome::Invalid);
    assert_eq!(after_act(&goal, ActResult::OtherFailure).outcome, Outcome::Invalid);
}
