use dr_downloader::auth::{handshake_outcome, AuthSession};
use dr_downloader::error::{AuthError, HttpFailure};

#[test]
fn handshake_outcome_reads_token() {
    let body = "[{\"value\":\"tok-abc\"}]";
    assert_eq!(handshake_outcome(200, body).unwrap(), "tok-abc");
}

#[test]
fn handshake_outcome_non_success_status() {
    assert!(matches!(
        handshake_outcome(503, "[{\"value\":\"tok\"}]"),
        Err(AuthError::HandshakeFailed(HttpFailure::Status(503)))
    ));
}

#[test]
fn handshake_outcome_unexpected_shape() {
    assert!(matches!(
        handshake_outcome(200, "{}"),
        Err(AuthError::HandshakeFailed(HttpFailure::UnexpectedShape))
    ));
    assert!(matches!(
        handshake_outcome(200, "[{\"other\":1}]"),
        Err(AuthError::HandshakeFailed(HttpFailure::UnexpectedShape))
    ));
    assert!(matches!(
        handshake_outcome(200, "not json"),
        Err(AuthError::HandshakeFailed(HttpFailure::UnexpectedShape))
    ));
}

#[test]
fn acquire_returns_cached_token_without_network() {
    let mut session = AuthSession::new(Some("cached-token".to_owned())).unwrap();
    assert_eq!(session.acquire().unwrap(), "cached-token");
    assert_eq!(session.current(), Some("cached-token".to_owned()));
    // A token loaded from the store is not freshly issued: nothing to persist.
    assert_eq!(session.take_pending_save(), None);
}

#[test]
fn refresh_single_flight_leader_and_waiters() {
    let mut session = AuthSession::new(Some("stale".to_owned())).unwrap();
    // The first caller becomes the leader.
    assert!(session.request_refresh());
    // Every caller racing with the in-flight refresh is told to wait.
    assert!(!session.request_refresh());
    assert!(!session.request_refresh());
    // The leader completes with the service's reply; the waiters then
    // observe the refreshed token.
    session
        .complete_refresh(200, "[{\"value\":\"fresh\"}]")
        .unwrap();
    assert_eq!(session.current(), Some("fresh".to_owned()));
    // The fresh token awaits best-effort persistence.
    assert_eq!(session.take_pending_save(), Some("fresh".to_owned()));
    // The refresh is no longer in flight: a new caller leads again.
    assert!(session.request_refresh());
    session.complete_refresh(200, "[{\"value\":\"fresher\"}]").unwrap();
    assert_eq!(session.current(), Some("fresher".to_owned()));
}

#[test]
fn rejected_refresh_keeps_previous_token() {
    let mut session = AuthSession::new(Some("stale".to_owned())).unwrap();
    assert!(session.request_refresh());
    assert!(matches!(
        session.complete_refresh(401, "irrelevant"),
        Err(AuthError::RefreshRejected(401))
    ));
    // The failed refresh left the previous token in place.
    assert_eq!(session.current(), Some("stale".to_owned()));
    assert_eq!(session.take_pending_save(), None);
}

#[test]
fn misshapen_refresh_keeps_previous_token() {
    let mut session = AuthSession::new(Some("stale".to_owned())).unwrap();
    assert!(session.request_refresh());
    assert!(matches!(session.complete_refresh(200, "{}"), Err(AuthError::RefreshShape)));
    assert_eq!(session.current(), Some("stale".to_owned()));
}

#[test]
fn transport_failure_ends_the_flight_and_keeps_token() {
    let mut session = AuthSession::new(Some("stale".to_owned())).unwrap();
    assert!(session.request_refresh());
    session.refresh_transport_failed();
    assert_eq!(session.current(), Some("stale".to_owned()));
    // A later staleness event elects a new leader.
    assert!(session.request_refresh());
    session.refresh_transport_failed();
}
