use colony_core::production::{
    body_cost, part_cost, plan_production, standard_body, CreateResult, PartKind, Producer,
    RetryDecision, SpawnName,
};

#[test]
fn part_costs_are_exact() {
    assert_eq!(part_cost(PartKind::Locomotion), 50);
    assert_eq!(part_cost(PartKind::Cargo), 50);
    assert_eq!(part_cost(PartKind::Labor), 100);
}

#[test]
fn standard_body_costs_exactly_250() {
    let body = standard_body();
    assert_eq!(
        body,
        vec![
            PartKind::Locomotion,
            PartKind::Locomotion,
            PartKind::Cargo,
            PartKind::Labor
        ]
    );
    assert_eq!(body_cost(&body), 250);
}

#[test]
fn body_cost_of_empty_spec_is_zero() {
    let body: Vec<PartKind> = Vec::new();
    assert_eq!(body_cost(&body), 0);
}

// production never oversubscribes: no request is issued beyond the
// facility's available resource
#[test]
fn plan_production_respects_budget() {
    assert_eq!(plan_production(0), None);
    assert_eq!(plan_production(249), None);
    assert_eq!(plan_production(250), Some(250));
    assert_eq!(plan_production(1000), Some(250));
}

// scenario: two facilities, only one with sufficient resource — exactly
// one creation request is issued, for that facility only
#[test]
fn only_the_funded_facility_spawns() {
    let energies = [300u32, 100u32];
    let plans: Vec<Option<u32>> = energies.iter().map(|e| plan_production(*e)).collect();
    assert_eq!(plans, vec![Some(250), None]);
    assert_eq!(plans.iter().filter(|p| p.is_some()).count(), 1);
}

// scenario: a creation request collides on its name — the controller
// retries with the incremented sequence number and succeeds within the
// same cycle
#[test]
fn name_collision_retries_with_next_sequence() {
    let mut producer = Producer::new(12345);
    assert_eq!(producer.next_name(), SpawnName { cycle: 12345, seq: 0 });
    let d = producer.record_result(CreateResult::NameCollision);
    assert_eq!(d, RetryDecision::Retry);
    assert_eq!(producer.next_name(), SpawnName { cycle: 12345, seq: 1 });
    let d = producer.record_result(CreateResult::Accepted);
    assert_eq!(d, RetryDecision::Settled);
    // the accepted name's sequence number is consumed too
    assert_eq!(producer.next_name(), SpawnName { cycle: 12345, seq: 2 });
}

#[test]
fn other_rejections_do_not_retry() {
    let mut producer = Producer::new(7);
    let d = producer.record_result(CreateResult::InsufficientResource);
    assert_eq!(d, RetryDecision::Settled);
    assert_eq!(producer.next_name(), SpawnName { cycle: 7, seq: 0 });
    let d = producer.record_result(CreateResult::OtherFailure);
    assert_eq!(d, RetryDecision::Settled);
    assert_eq!(producer.next_name(), SpawnName { cycle: 7, seq: 0 });
}
