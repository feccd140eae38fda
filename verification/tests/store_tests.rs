use person_store::HttpAppError;
use person_store::Person;
use person_store::PersonCollection;
use person_store::create_person_collection;

fn person(id: u32, name: &str, age: i32, date: &str) -> Person {
    Person { id, name: name.to_string(), age, date: date.to_string() }
}

#[test]
fn seeded_collection_holds_the_two_sample_records() {
    let c = create_person_collection();
    let all = c.list();
    assert_eq!(all.len(), 2);
    assert_eq!(all[0], person(1, "Alice", 30, "2023-01-01"));
    assert_eq!(all[1], person(2, "Bob", 25, "2023-01-02"));
}

#[test]
fn insert_then_get_round_trips() {
    let mut c = PersonCollection::new();
    let p = person(7, "Dana", 41, "2024-05-06");
    assert!(c.insert(p.clone()).is_ok());
    let got = c.get(7).unwrap();
    assert_eq!(got, p);
}

#[test]
fn insert_duplicate_id_signals_conflict_and_mutates_nothing() {
    let mut c = create_person_collection();
    let before = c.list();
    let r = c.insert(person(1, "Impostor", 99, "1999-09-09"));
    assert!(matches!(r, Err(HttpAppError::Conflict)));
    assert_eq!(c.list(), before);
}

#[test]
fn update_overwrites_every_field_but_the_id() {
    let mut c = PersonCollection::new();
    c.insert(person(5, "Eve", 20, "2020-02-02")).unwrap();
    c.update(person(5, "Evelyn", 21, "2021-03-03")).unwrap();
    let got = c.get(5).unwrap();
    assert_eq!(got, person(5, "Evelyn", 21, "2021-03-03"));
}

#[test]
fn update_of_missing_id_signals_not_found() {
    let mut c = create_person_collection();
    let r = c.update(person(42, "Nobody", 1, "2000-01-01"));
    assert!(matches!(r, Err(HttpAppError::NotFound)));
    assert_eq!(c.len(), 2);
}

#[test]
fn delete_removes_the_record() {
    let mut c = PersonCollection::new();
    c.insert(person(9, "Finn", 33, "2022-12-12")).unwrap();
    assert!(c.delete(9).is_ok());
    assert!(matches!(c.get(9), Err(HttpAppError::NotFound)));
    assert_eq!(c.len(), 0);
}

#[test]
fn delete_of_missing_id_signals_not_found() {
    let mut c = PersonCollection::new();
    let r = c.delete(3);
    assert!(matches!(r, Err(HttpAppError::NotFound)));
}

#[test]
fn get_on_empty_collection_signals_not_found() {
    let c = PersonCollection::new();
    assert!(matches!(c.get(1), Err(HttpAppError::NotFound)));
    assert!(c.list().is_empty());
}

#[test]
fn no_two_records_ever_share_an_id() {
    let mut c = create_person_collection();
    let _ = c.insert(person(3, "Cara", 40, "2023-01-03"));
    let _ = c.insert(person(3, "Cara again", 40, "2023-01-03"));
    let _ = c.insert(person(1, "Alice again", 30, "2023-01-01"));
    let _ = c.update(person(2, "Bobby", 26, "2023-01-09"));
    let _ = c.delete(1);
    let _ = c.insert(person(2, "Bob again", 25, "2023-01-02"));
    let all = c.list();
    for i in 0..all.len() {
        for j in 0..all.len() {
            if i != j {
                assert_ne!(all[i].id, all[j].id);
            }
        }
    }
}

#[test]
fn from_records_rejects_a_duplicate_id() {
    let records = vec![
        person(1, "Alice", 30, "2023-01-01"),
        person(1, "Alice twin", 31, "2023-01-02"),
    ];
    let r = PersonCollection::from_records(records);
    assert!(matches!(r, Err(HttpAppError::Conflict)));
}

#[test]
fn from_records_accepts_distinct_ids_in_order() {
    let records = vec![person(4, "Gil", 50, "2019-01-01"), person(2, "Hana", 28, "2018-07-07")];
    let c = PersonCollection::from_records(records.clone()).unwrap();
    assert_eq!(c.list(), records);
}

#[test]
fn delete_keeps_relative_order_of_the_rest() {
    let mut c = PersonCollection::new();
    c.insert(person(1, "A", 1, "d1")).unwrap();
    c.insert(person(2, "B", 2, "d2")).unwrap();
    c.insert(person(3, "C", 3, "d3")).unwrap();
    c.delete(2).unwrap();
    let all = c.list();
    assert_eq!(all.len(), 2);
    assert_eq!(all[0].id, 1);
    assert_eq!(all[1].id, 3);
}

#[test]
fn snapshots_are_copies_not_references() {
    let mut c = create_person_collection();
    let snapshot = c.list();
    c.delete(1).unwrap();
    assert_eq!(snapshot.len(), 2);
    assert_eq!(snapshot[0].id, 1);
    assert_eq!(c.len(), 1);
}
