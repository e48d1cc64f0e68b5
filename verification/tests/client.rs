use acme_distributor::client::{
    certificate_url, check_exit_code, check_exit_code_at, needs_fetch, needs_fetch_at, ClientState,
};
use acme_distributor::types::CertificateResponse;

const DAY: i64 = 86_400_000;

fn state(expires_at: i64, before: Option<i64>, after: Option<i64>) -> ClientState {
    ClientState {
        cert: Some("C".to_string()),
        key: None,
        ca: None,
        chain: None,
        expires_at,
        prefer_renew_before: before,
        prefer_renew_after: after,
    }
}

#[test]
fn renewal_rules() {
    let now = 1_000 * DAY;
    assert!(state(now + DAY, None, None).should_renew_at(now));
    assert!(!state(now + 2 * DAY, None, None).should_renew_at(now));
    assert!(state(now + 2 * DAY - 1, None, None).should_renew_at(now));
    assert!(state(now + 30 * DAY, Some(now - 1), None).should_renew_at(now));
    assert!(!state(now + 30 * DAY, Some(now), None).should_renew_at(now));
    assert!(!state(now + DAY, Some(now - 1), Some(now + 1)).should_renew_at(now));
    assert!(state(now + DAY, None, Some(now)).should_renew_at(now));
    assert!(state(0, None, None).should_renew());
}

#[test]
fn fetch_and_check_decisions() {
    let now = 1_000 * DAY;
    let fresh = state(now + 30 * DAY, None, None);
    assert!(needs_fetch_at(true, Some(&fresh), now));
    assert!(!needs_fetch_at(false, Some(&fresh), now));
    assert!(needs_fetch_at(false, None, now));
    assert_eq!(check_exit_code_at(None, now), 0);
    assert_eq!(check_exit_code_at(Some(&fresh), now), 1);
    assert_eq!(check_exit_code_at(Some(&state(now, None, None)), now), 0);
    assert!(needs_fetch(false, None));
    assert_eq!(check_exit_code(None), 0);
    assert_eq!(check_exit_code(Some(&state(i64::MAX - 1, None, None))), 1);
}

#[test]
fn state_from_response() {
    let r = CertificateResponse {
        cert: Some("c".to_string()),
        key: Some("k".to_string()),
        ca: None,
        chain: Some("ch".to_string()),
        expires_at: 9,
        prefer_renew_before: Some(3),
        prefer_renew_after: Some(1),
    };
    let s = ClientState::from_response(r);
    assert_eq!(s.cert.as_deref(), Some("c"));
    assert_eq!(s.ca, None);
    assert_eq!(s.expires_at, 9);
    assert_eq!(s.prefer_renew_after, Some(1));
}

#[test]
fn urls() {
    assert_eq!(certificate_url("http://srv:3444", "a.b"), "http://srv:3444/certificate/a.b");
    assert_eq!(certificate_url("http://srv:3444///", "a.b"), "http://srv:3444/certificate/a.b");
    assert_eq!(certificate_url("", "x"), "/certificate/x");
    assert_eq!(certificate_url("/", "x"), "/certificate/x");
}
