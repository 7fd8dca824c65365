//! The media resolver: turns an item identifier into a directly fetchable
//! media URL, healing a rejected credential with one refresh and one retry,
//! and fetches the payload behind a resolved URL.
//!
//! The retry is bounded explicitly: a first authorization rejection (401 or
//! 403) triggers exactly one refresh and one retried request; a second
//! rejection after the fresh refresh is a hard failure, never retried
//! again, which guards against looping on a persistently broken credential.

use crate::auth::AuthSession;
use crate::catalog::construct_ep_query_url;
use crate::error::{FetchError, ResolveError};
use crate::jsonx::{extract_first_url_field, first_url_field};
use vstd::prelude::*;
use vstd::string::StrSliceExecFns;

verus! {

/// A status with which the service rejects the presented credential.
pub open spec fn auth_rejection(status: u16) -> bool {
    status == 401 || status == 403
}

/// What one resolution attempt decides.
#[derive(Debug)]
pub enum ResolveAction {
    /// The response carried the media URL.
    Succeed(String),
    /// The credential was rejected; refresh it and retry once.
    RefreshAndRetry,
    /// A hard failure, not retried.
    Fail(ResolveError),
}

/// [`ResolveAction`] without the resolved URL, for contracts.
#[derive(Clone, Copy, Debug, PartialEq, Eq, Structural)]
pub enum ResolveActionKind {
    Succeed,
    RefreshAndRetry,
    Fail(ResolveError),
}

impl ResolveAction {
    /// The kind of this action.
    pub open spec fn kind(&self) -> ResolveActionKind {
        match self {
            ResolveAction::Succeed(_) => ResolveActionKind::Succeed,
            ResolveAction::RefreshAndRetry => ResolveActionKind::RefreshAndRetry,
            ResolveAction::Fail(e) => ResolveActionKind::Fail(*e),
        }
    }
}

/// What a resolution attempt decides, given whether a refreshed retry
/// already happened, the response status, and the `url` field of the
/// response body: an authorization rejection refreshes and retries on the
/// first attempt and fails hard on the retried one; any other non-success
/// status fails hard at once; a success status yields the body's media URL,
/// or fails hard when the body has no such field.
pub open spec fn spec_resolve_decision(
    retried: bool,
    status: u16,
    url_field: Option<Seq<char>>,
) -> ResolveActionKind {
    if auth_rejection(status) {
        if retried {
            ResolveActionKind::Fail(ResolveError::AuthRejected(status))
        } else {
            ResolveActionKind::RefreshAndRetry
        }
    } else if status != 200 {
        ResolveActionKind::Fail(ResolveError::HttpStatus(status))
    } else {
        match url_field {
            Some(_) => ResolveActionKind::Succeed,
            None => ResolveActionKind::Fail(ResolveError::UnexpectedShape),
        }
    }
}

/// The decision taken on one resolution response.
pub fn resolve_decision(retried: bool, status: u16, body: &str) -> (r: ResolveAction)
    ensures
        r.kind() == spec_resolve_decision(retried, status, first_url_field(body@)),
        r matches ResolveAction::Succeed(u) ==> first_url_field(body@) == Some(u@),
{
    if status == 401 || status == 403 {
        if retried {
            ResolveAction::Fail(ResolveError::AuthRejected(status))
        } else {
            ResolveAction::RefreshAndRetry
        }
    } else if status != 200 {
        ResolveAction::Fail(ResolveError::HttpStatus(status))
    } else {
        match extract_first_url_field(body) {
            Some(url) => ResolveAction::Succeed(url),
            None => ResolveAction::Fail(ResolveError::UnexpectedShape),
        }
    }
}

/// Retry-once: when the first attempt is answered with an authorization
/// rejection, the decision is to refresh and retry — exactly once, since
/// any authorization rejection of the retried attempt is a hard failure,
/// whatever the response bodies hold; no third attempt can be decided.
pub proof fn lemma_retry_once(
    s1: u16,
    b1: Option<Seq<char>>,
    s2: u16,
    b2: Option<Seq<char>>,
)
    requires
        auth_rejection(s1),
        auth_rejection(s2),
    ensures
        spec_resolve_decision(false, s1, b1) == ResolveActionKind::RefreshAndRetry,
        spec_resolve_decision(true, s2, b2) == ResolveActionKind::Fail(
            ResolveError::AuthRejected(s2),
        ),
{
}

/// Resolves an item identifier to its media URL: one bearer-authenticated
/// GET on the item's query endpoint, and — only on an authorization
/// rejection — one refresh through the session followed by one retry.  At
/// most one refresh is ever issued, and the session is left with a token
/// and with no refresh in flight.
pub fn get_episode_url(session: &mut AuthSession, ep_id: &str) -> (r: Result<String, ResolveError>)
    requires
        old(session).spec_token() is Some,
        !old(session).spec_in_flight(),
    ensures
        final(session).spec_refreshes() <= old(session).spec_refreshes() + 1,
        final(session).spec_handshakes() == old(session).spec_handshakes(),
        !final(session).spec_in_flight(),
        final(session).spec_token() is Some,
{
    let url = construct_ep_query_url(ep_id);
    let token = match session.current() {
        Some(t) => t,
        None => unreached(),
    };
    let reply = match crate::http::http_get_bearer(session.client(), url.as_str(), token.as_str()) {
        Err(_) => {
            return Err(ResolveError::Transport);
        },
        Ok(rep) => rep,
    };
    match resolve_decision(false, reply.status, reply.body.as_str()) {
        ResolveAction::Succeed(media_url) => Ok(media_url),
        ResolveAction::Fail(e) => Err(e),
        ResolveAction::RefreshAndRetry => {
            match session.refresh() {
                Err(e) => {
                    return Err(ResolveError::Refresh(e));
                },
                Ok(()) => {},
            }
            let token = match session.current() {
                Some(t) => t,
                None => unreached(),
            };
            let reply = match crate::http::http_get_bearer(
                session.client(),
                url.as_str(),
                token.as_str(),
            ) {
                Err(_) => {
                    return Err(ResolveError::Transport);
                },
                Ok(rep) => rep,
            };
            match resolve_decision(true, reply.status, reply.body.as_str()) {
                ResolveAction::Succeed(media_url) => Ok(media_url),
                ResolveAction::Fail(e) => Err(e),
                ResolveAction::RefreshAndRetry => unreached(),
            }
        },
    }
}

/// What a payload fetch yields from a response: the body's bytes on a
/// success status, and the status as a hard failure otherwise.
pub fn payload_outcome(status: u16, body: String) -> (r: Result<Vec<u8>, FetchError>)
    ensures
        status == 200 ==> (r matches Ok(d) && d@ == vstd::utf8::encode_utf8(body@)),
        status != 200 ==> r == Err::<Vec<u8>, FetchError>(FetchError::HttpStatus(status)),
{
    if status != 200 {
        return Err(FetchError::HttpStatus(status));
    }
    Ok(body.as_str().as_bytes_vec())
}

/// Fetches the payload behind a resolved media URL: one GET; a non-success
/// status is a hard failure.  Whatever the network answers, a success
/// carries the UTF-8 bytes of some reply body, and a failure is a transport
/// failure or a non-success status — a payload fetch never reports a shape
/// mismatch.
pub fn fetch_payload(session: &AuthSession, url: &str) -> (r: Result<Vec<u8>, FetchError>)
    ensures
        r matches Ok(d) ==> exists|b: Seq<char>| d@ == vstd::utf8::encode_utf8(b),
        r matches Err(e) ==> (e is Transport || e is HttpStatus),
{
    match crate::http::http_get(session.client(), url) {
        Err(_) => Err(FetchError::Transport),
        Ok(rep) => {
            let ghost body_chars = rep.body@;
            let r = payload_outcome(rep.status, rep.body);
            proof {
                if r is Ok {
                    assert(r->Ok_0@ == vstd::utf8::encode_utf8(body_chars));
                }
            }
            r
        },
    }
}

} // verus!
