use acme_distributor::challenge::ChallengeStore;
use acme_distributor::routes::{serve_challenge, serve_challenge_at, HttpStatus};

/// One millisecond on the store's clock, which counts nanoseconds.
const MS: i64 = 1_000_000;

#[test]
fn stored_answer_is_served_within_ten_minutes() {
    let mut store = ChallengeStore::new();
    store.insert_at("tok".to_string(), "tok.key".to_string(), 1_000 * MS);
    assert_eq!(store.get_at("tok", 1_000 * MS), Some("tok.key".to_string()));
    assert_eq!(store.get_at("tok", 600_999 * MS), Some("tok.key".to_string()));
    assert_eq!(store.get_at("tok", 601_000 * MS - 1), Some("tok.key".to_string()));
    assert_eq!(store.get_at("tok", 601_000 * MS), None);
    assert_eq!(store.get_at("other", 1_000 * MS), None);
}

#[test]
fn later_insert_replaces_answer_and_restarts_its_time() {
    let mut store = ChallengeStore::default();
    store.insert_at("tok".to_string(), "first".to_string(), 0);
    store.insert_at("tok".to_string(), "second".to_string(), 500_000 * MS);
    assert_eq!(store.get_at("tok", 700_000 * MS), Some("second".to_string()));
}

#[test]
fn cleanup_drops_only_stale_challenges() {
    let mut store = ChallengeStore::new();
    store.insert_at("old".to_string(), "a".to_string(), 0);
    store.insert_at("new".to_string(), "b".to_string(), 550_000 * MS);
    store.insert_at("older".to_string(), "c".to_string(), -5 * MS);
    store.cleanup_at(600_000 * MS);
    assert_eq!(store.get_at("old", 0), None);
    assert_eq!(store.get_at("older", 0), None);
    assert_eq!(store.get_at("new", 600_000 * MS), Some("b".to_string()));
}

#[test]
fn fresh_challenge_is_served_now() {
    let mut store = ChallengeStore::new();
    store.insert("tok".to_string(), "tok.auth".to_string());
    assert_eq!(store.get("tok"), Some("tok.auth".to_string()));
    assert!(matches!(serve_challenge(&store, "tok"), Ok(v) if v == "tok.auth"));
    assert!(matches!(serve_challenge(&store, "nope"), Err(HttpStatus::NotFound)));
    store.cleanup();
    assert_eq!(store.get("tok"), Some("tok.auth".to_string()));
}

#[test]
fn challenge_route_refuses_stale_answers() {
    let mut store = ChallengeStore::new();
    store.insert_at("tok".to_string(), "v".to_string(), 0);
    assert!(matches!(serve_challenge_at(&store, "tok", 10 * MS), Ok(v) if v == "v"));
    assert!(matches!(serve_challenge_at(&store, "tok", 600_000 * MS), Err(HttpStatus::NotFound)));
}
