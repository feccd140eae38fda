use person_store::AppState;
use person_store::HttpAppError;
use person_store::Person;

fn person(id: u32, name: &str, age: i32, date: &str) -> Person {
    Person { id, name: name.to_string(), age, date: date.to_string() }
}

#[test]
fn the_concrete_scenario_runs_end_to_end() {
    let state = AppState::new("Hi!".to_string());

    let got = state.single_person(1).unwrap();
    assert_eq!(got, person(1, "Alice", 30, "2023-01-01"));

    assert!(matches!(state.single_person(99), Err(HttpAppError::NotFound)));

    let r = state.add_person(person(1, "Impostor", 99, "1999-09-09"));
    assert!(matches!(r, Err(HttpAppError::Conflict)));
    assert_eq!(state.persons().len(), 2);

    state.add_person(person(3, "Cara", 40, "2023-01-03")).unwrap();
    assert_eq!(state.persons().len(), 3);

    state.update_person(person(2, "Bobby", 26, "2023-01-09")).unwrap();
    assert_eq!(state.single_person(2).unwrap().name, "Bobby");

    state.delete_person(1).unwrap();
    assert!(matches!(state.single_person(1), Err(HttpAppError::NotFound)));
    let mut ids: Vec<u32> = state.persons().iter().map(|p| p.id).collect();
    ids.sort();
    assert_eq!(ids, vec![2, 3]);
}

#[test]
fn with_records_rejects_duplicates_and_accepts_distinct_ids() {
    let dup = vec![person(1, "A", 1, "d"), person(1, "B", 2, "d")];
    assert!(matches!(
        AppState::with_records(dup, "Hi!".to_string()),
        Err(HttpAppError::Conflict)
    ));

    let ok = vec![person(1, "A", 1, "d"), person(2, "B", 2, "d")];
    let state = AppState::with_records(ok, "Hi!".to_string()).unwrap();
    assert_eq!(state.persons().len(), 2);
}

#[test]
fn two_simultaneous_readers_observe_the_same_collection() {
    let state = AppState::new("Hi!".to_string());
    let (first, second) = state.concurrent_snapshots();
    assert_eq!(first, second);
    assert_eq!(first.len(), 2);
}

#[test]
fn update_through_the_state_signals_not_found_for_a_missing_id() {
    let state = AppState::new("Hi!".to_string());
    let r = state.update_person(person(42, "Nobody", 1, "2000-01-01"));
    assert!(matches!(r, Err(HttpAppError::NotFound)));
}

#[test]
fn delete_through_the_state_signals_not_found_for_a_missing_id() {
    let state = AppState::new("Hi!".to_string());
    assert!(matches!(state.delete_person(77), Err(HttpAppError::NotFound)));
}

#[test]
fn the_greeting_text_is_kept() {
    let state = AppState::new("Hello there".to_string());
    assert_eq!(state.greeting_text, "Hello there");
}
