use sms_verification::store::VerificationStore;

#[test]
fn new_store_is_empty() {
    let store = VerificationStore::new();
    assert_eq!(store.len(), 0);
    assert_eq!(store.created_at("+15551234567"), None);
    assert!(!store.has_live_attempt("+15551234567", 0));
}

#[test]
fn insert_writes_one_row_and_records_the_time() {
    let mut store = VerificationStore::new();
    assert_eq!(store.insert_attempt("+15551234567", 42), 1);
    assert_eq!(store.len(), 1);
    assert_eq!(store.created_at("+15551234567"), Some(42));
    assert_eq!(store.created_at("+15551234568"), None);
}

#[test]
fn insert_for_a_recorded_number_takes_the_place_of_its_attempt() {
    let mut store = VerificationStore::new();
    assert_eq!(store.insert_attempt("a", 1), 1);
    assert_eq!(store.insert_attempt("b", 2), 1);
    assert_eq!(store.insert_attempt("a", 900), 1);
    assert_eq!(store.len(), 2);
    assert_eq!(store.created_at("a"), Some(900));
    assert_eq!(store.created_at("b"), Some(2));
}

#[test]
fn delete_reports_whether_a_row_was_removed() {
    let mut store = VerificationStore::new();
    assert_eq!(store.delete_attempt("a"), 0);
    store.insert_attempt("a", 1);
    store.insert_attempt("b", 2);
    store.insert_attempt("c", 3);
    assert_eq!(store.delete_attempt("b"), 1);
    assert_eq!(store.delete_attempt("b"), 0);
    assert_eq!(store.len(), 2);
    assert_eq!(store.created_at("a"), Some(1));
    assert_eq!(store.created_at("b"), None);
    assert_eq!(store.created_at("c"), Some(3));
}

#[test]
fn live_attempt_needs_a_record_within_the_window() {
    let mut store = VerificationStore::new();
    store.insert_attempt("a", 1_000);
    assert!(store.has_live_attempt("a", 1_000));
    assert!(store.has_live_attempt("a", 1_599));
    assert!(!store.has_live_attempt("a", 1_600));
    assert!(!store.has_live_attempt("b", 1_000));
    assert_eq!(store.len(), 1);
}

#[test]
fn expired_attempt_is_not_swept() {
    let mut store = VerificationStore::new();
    store.insert_attempt("a", 0);
    assert!(!store.has_live_attempt("a", 1_000_000));
    assert_eq!(store.len(), 1);
    assert_eq!(store.created_at("a"), Some(0));
}

#[test]
fn numbers_are_told_apart_exactly() {
    let mut store = VerificationStore::new();
    store.insert_attempt("+1555", 1);
    store.insert_attempt("+1555 ", 2);
    store.insert_attempt("1555", 3);
    assert_eq!(store.len(), 3);
    assert_eq!(store.created_at("+1555"), Some(1));
    assert_eq!(store.delete_attempt("+1555 "), 1);
    assert_eq!(store.created_at("1555"), Some(3));
    assert_eq!(store.len(), 2);
}
