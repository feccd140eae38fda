use person_store::HttpAppError;

#[test]
fn conflict_message_and_status() {
    let e = HttpAppError::Conflict;
    assert_eq!(e.message(), "An element with the same ID already exists");
    assert_eq!(e.status_code(), 409);
}

#[test]
fn not_found_message_and_status() {
    let e = HttpAppError::NotFound;
    assert_eq!(e.message(), "Not found");
    assert_eq!(e.status_code(), 404);
}

#[test]
fn lock_error_message_and_status() {
    let e = HttpAppError::LockError("Read Lock was poisoned".to_string());
    assert_eq!(e.message(), "Poison error Read Lock was poisoned");
    assert_eq!(e.status_code(), 500);
}

#[test]
fn poisoned_lock_constructors_tag_the_acquisition_mode() {
    let read = HttpAppError::read_lock_poisoned();
    assert!(matches!(read, HttpAppError::LockError(ref m) if m == "Read Lock was poisoned"));
    assert_eq!(read.message(), "Poison error Read Lock was poisoned");

    let write = HttpAppError::write_lock_poisoned();
    assert!(matches!(write, HttpAppError::LockError(ref m) if m == "Write Lock was poisoned"));
    assert_eq!(write.message(), "Poison error Write Lock was poisoned");
}
