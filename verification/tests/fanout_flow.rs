use dr_downloader::auth::AuthSession;
use dr_downloader::error::{
    DownloadError, FetchError, ItemFailure, ParseError, ResolveError,
};
use dr_downloader::fanout::{assemble_outcomes, Downloader};
use dr_downloader::models::{EpisodeData, EpisodeInfo, FetchOutcome};
use dr_downloader::resolver::{fetch_payload, payload_outcome, resolve_decision, ResolveAction};

fn episode(name: &str, id: &str, payload: &[u8]) -> EpisodeData {
    EpisodeData {
        info: EpisodeInfo { name: name.to_owned(), id: id.to_owned() },
        data: payload.to_vec(),
    }
}

#[test]
fn resolve_decision_first_rejection_refreshes_and_retries() {
    assert!(matches!(resolve_decision(false, 401, ""), ResolveAction::RefreshAndRetry));
    assert!(matches!(resolve_decision(false, 403, ""), ResolveAction::RefreshAndRetry));
}

#[test]
fn resolve_decision_second_rejection_is_hard_failure() {
    assert!(matches!(
        resolve_decision(true, 401, ""),
        ResolveAction::Fail(ResolveError::AuthRejected(401))
    ));
    assert!(matches!(
        resolve_decision(true, 403, ""),
        ResolveAction::Fail(ResolveError::AuthRejected(403))
    ));
}

#[test]
fn resolve_decision_other_statuses_and_shapes() {
    assert!(matches!(
        resolve_decision(false, 404, ""),
        ResolveAction::Fail(ResolveError::HttpStatus(404))
    ));
    match resolve_decision(false, 200, "[{\"url\":\"https://media.example/a\"}]") {
        ResolveAction::Succeed(url) => assert_eq!(url, "https://media.example/a"),
        _ => panic!("expected the body's media URL"),
    }
    assert!(matches!(
        resolve_decision(false, 200, "{}"),
        ResolveAction::Fail(ResolveError::UnexpectedShape)
    ));
}

#[test]
fn payload_outcome_body_bytes_or_status() {
    assert_eq!(payload_outcome(200, "abc".to_owned()).unwrap(), b"abc".to_vec());
    assert!(matches!(
        payload_outcome(500, "abc".to_owned()),
        Err(FetchError::HttpStatus(500))
    ));
}

#[test]
fn assemble_outcomes_out_of_order_completion() {
    let items = vec!["u0".to_owned(), "u1".to_owned(), "u2".to_owned()];
    // Tasks completed in the order 2, 0, 1; task 1 failed.
    let results: Vec<(usize, Result<EpisodeData, ItemFailure>)> = vec![
        (2, Ok(episode("c", "3", b"cc"))),
        (0, Ok(episode("a", "1", b"aa"))),
        (1, Err(ItemFailure::Fetch(FetchError::HttpStatus(500)))),
    ];
    let out = assemble_outcomes(&items, &results);
    assert_eq!(out.len(), 3);
    match &out[0] {
        FetchOutcome::Success(d) => {
            assert_eq!(&d.info.name, "a");
            assert_eq!(d.data, b"aa".to_vec());
        },
        _ => panic!("item 0 succeeded"),
    }
    match &out[1] {
        FetchOutcome::Failure(id, cause) => {
            assert_eq!(id, "u1");
            assert!(matches!(cause, ItemFailure::Fetch(FetchError::HttpStatus(500))));
        },
        _ => panic!("item 1 failed"),
    }
    assert!(out[2].is_success());
}

#[test]
fn fanout_isolation_single_failure_single_slot() {
    // Five items; item 3 deterministically fails; every other item's task
    // succeeded.  Exactly one failure appears, at position 3.
    let items: Vec<String> = (0..5).map(|i| format!("item_{}", i)).collect();
    let results: Vec<(usize, Result<EpisodeData, ItemFailure>)> = vec![
        (4, Ok(episode("e", "5", b"e"))),
        (3, Err(ItemFailure::Resolve(ResolveError::Transport))),
        (2, Ok(episode("c", "3", b"c"))),
        (1, Ok(episode("b", "2", b"b"))),
        (0, Ok(episode("a", "1", b"a"))),
    ];
    let out = assemble_outcomes(&items, &results);
    assert_eq!(out.len(), 5);
    let failures: Vec<usize> = out
        .iter()
        .enumerate()
        .filter(|(_, o)| !o.is_success())
        .map(|(i, _)| i)
        .collect();
    assert_eq!(failures, vec![3]);
    match &out[3] {
        FetchOutcome::Failure(id, _) => assert_eq!(id, "item_3"),
        _ => panic!("position 3 holds the failure"),
    }
}

#[test]
fn fetch_payload_transport_failure_on_unusable_url() {
    let session = AuthSession::new(Some("tok".to_owned())).unwrap();
    // A URL the client cannot even parse fails before any request is sent.
    assert!(matches!(
        fetch_payload(&session, "not a url"),
        Err(FetchError::Transport)
    ));
}

#[test]
fn downloader_rejects_unrecognized_urls_before_any_work() {
    let session = AuthSession::new(Some("tok".to_owned())).unwrap();
    let mut d = Downloader::new(session);
    assert!(matches!(
        d.download("hello world\r\n"),
        Err(DownloadError::Unrecognized(ParseError::MalformedUrl))
    ));
    // Nothing was dispatched and no notification fired.
    assert!(d.download_event.take_entries().is_empty());
    assert!(d.finished_event.take_entries().is_empty());
    assert!(d.failed_event.take_entries().is_empty());
}

#[test]
fn downloader_rejects_unclassifiable_urls_without_dispatch() {
    let session = AuthSession::new(Some("tok".to_owned())).unwrap();
    let mut d = Downloader::new(session);
    // Passes the guard but holds neither the collection nor the item marker:
    // rejected at classification, before any dispatch or notification.
    assert!(matches!(
        d.download("https://www.dr.dk/drtv/abc_1"),
        Err(DownloadError::Unrecognized(ParseError::UnrecognizedKind))
    ));
    assert!(d.download_event.take_entries().is_empty());
    assert!(d.finished_event.take_entries().is_empty());
    assert!(d.failed_event.take_entries().is_empty());
}

#[test]
fn download_episode_parse_failure_fires_started_and_failed() {
    let session = AuthSession::new(Some("tok".to_owned())).unwrap();
    let mut d = Downloader::new(session);
    let r = d.download_episode("no separators here");
    assert!(matches!(r, Err(ItemFailure::Parse(ParseError::MalformedUrl))));
    assert_eq!(d.download_event.take_entries(), vec!["no separators here".to_owned()]);
    assert_eq!(d.failed_event.take_entries(), vec!["no separators here".to_owned()]);
    assert!(d.finished_event.take_entries().is_empty());
}
