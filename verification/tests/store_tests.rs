use colony_core::goal::{Goal, ObjectiveRef, SourceRef};
use colony_core::store::TargetStore;

#[test]
fn empty_store_has_no_goal() {
    let store = TargetStore::new();
    assert_eq!(store.peek(&String::from("a")), None);
}

#[test]
fn insert_then_peek_returns_goal() {
    let mut store = TargetStore::new();
    let id = String::from("agent-1");
    store.insert(&id, Goal::Gather(SourceRef { id: 11 }));
    assert_eq!(store.peek(&id), Some(Goal::Gather(SourceRef { id: 11 })));
    assert_eq!(store.peek(&String::from("agent-2")), None);
}

#[test]
fn insert_replaces_existing_goal() {
    let mut store = TargetStore::new();
    let id = String::from("agent-1");
    store.insert(&id, Goal::Gather(SourceRef { id: 11 }));
    store.insert(&id, Goal::ServiceObjective(ObjectiveRef { id: 5 }));
    assert_eq!(
        store.peek(&id),
        Some(Goal::ServiceObjective(ObjectiveRef { id: 5 }))
    );
    // replaced, not duplicated: one removal empties the entry
    assert_eq!(
        store.get_and_remove(&id),
        Some(Goal::ServiceObjective(ObjectiveRef { id: 5 }))
    );
    assert_eq!(store.peek(&id), None);
}

#[test]
fn get_and_remove_takes_the_entry() {
    let mut store = TargetStore::new();
    let a = String::from("a");
    let b = String::from("b");
    store.insert(&a, Goal::Gather(SourceRef { id: 1 }));
    store.insert(&b, Goal::ServiceObjective(ObjectiveRef { id: 2 }));
    assert_eq!(store.get_and_remove(&a), Some(Goal::Gather(SourceRef { id: 1 })));
    assert_eq!(store.get_and_remove(&a), None);
    // the other entry is untouched
    assert_eq!(
        store.peek(&b),
        Some(Goal::ServiceObjective(ObjectiveRef { id: 2 }))
    );
}

#[test]
fn get_and_remove_on_absent_id_is_none() {
    let mut store = TargetStore::new();
    assert_eq!(store.get_and_remove(&String::from("ghost")), None);
}

#[test]
fn retain_live_drops_dead_agents_only() {
    let mut store = TargetStore::new();
    let a = String::from("alive");
    let d = String::from("dead");
    store.insert(&a, Goal::Gather(SourceRef { id: 1 }));
    store.insert(&d, Goal::ServiceObjective(ObjectiveRef { id: 2 }));
    let live = vec![String::from("alive"), String::from("bystander")];
    store.retain_live(&live);
    assert_eq!(store.peek(&a), Some(Goal::Gather(SourceRef { id: 1 })));
    assert_eq!(store.peek(&d), None);
}

#[test]
fn retain_live_with_no_live_agents_empties_the_store() {
    let mut store = TargetStore::new();
    store.insert(&String::from("x"), Goal::Gather(SourceRef { id: 1 }));
    store.insert(&String::from("y"), Goal::Gather(SourceRef { id: 2 }));
    let live: Vec<String> = Vec::new();
    store.retain_live(&live);
    assert_eq!(store.peek(&String::from("x")), None);
    assert_eq!(store.peek(&String::from("y")), None);
}
