//! The token lifecycle: acquisition of the anonymous-session bearer token,
//! and its single-flight refresh.
//!
//! The session is the one piece of state shared by concurrent fetch tasks.
//! A caller that finds the token rejected asks to refresh; the first such
//! caller becomes the leader and issues the one network refresh, every
//! later caller is told to wait for the leader's completion and then reuse
//! its result.  A refresh that fails leaves the previous token in place, so
//! callers can still present a credential on the next attempt.
//!
//! The leader protocol is [`AuthSession::request_refresh`] (the decision),
//! the network POST, and then [`AuthSession::complete_refresh`] or
//! [`AuthSession::refresh_transport_failed`] (the completion).  The
//! sequential driver [`AuthSession::refresh`] runs the whole protocol; a
//! concurrent runner serializes only the decision and completion steps and
//! keeps the network call outside any lock.

use crate::error::{AuthError, HttpFailure};
use crate::http::{http_post_json, make_client};
use crate::jsonx::{extract_first_value_field, first_value_field};
use vstd::prelude::*;
use vstd::string::StringExecFns;

verus! {

/// Holds the current bearer token, heals it when it is rejected, and
/// counts (in ghost state) the network handshakes and refreshes it issued.
pub struct AuthSession {
    client: reqwest::blocking::Client,
    token: Option<String>,
    refresh_in_flight: bool,
    pending_save: Option<String>,
    handshakes: Ghost<nat>,
    refreshes: Ghost<nat>,
}

/// Whether a caller that requests a refresh becomes the leader: it does
/// exactly when no refresh is in flight.
pub open spec fn refresh_lead(in_flight: bool) -> bool {
    !in_flight
}

/// How many of `k` consecutive refresh requests become the leader, when the
/// first arrives with the given in-flight state and none of the `k` is
/// answered before the last arrives (every request leaves a refresh in
/// flight behind it).
pub open spec fn lead_count(in_flight: bool, k: nat) -> nat
    decreases k,
{
    if k == 0 {
        0
    } else {
        (if refresh_lead(in_flight) {
            1nat
        } else {
            0nat
        }) + lead_count(true, (k - 1) as nat)
    }
}

/// Single-flight: of `k` concurrent callers that request a refresh while
/// none is in flight, exactly one becomes the leader and issues the one
/// network refresh; the other `k - 1` are told to wait for that refresh,
/// and [`AuthSession::complete_refresh`] says that after it succeeds every
/// waiter observes the refreshed token.
pub proof fn lemma_single_flight(k: nat)
    requires
        k >= 1,
    ensures
        lead_count(false, k) == 1,
    decreases k,
{
    lemma_no_second_leader((k - 1) as nat);
}

/// While a refresh is in flight, no further request becomes the leader.
pub proof fn lemma_no_second_leader(k: nat)
    ensures
        lead_count(true, k) == 0,
    decreases k,
{
    if k > 0 {
        lemma_no_second_leader((k - 1) as nat);
    }
}

/// The decision taken on a handshake response: the body's token on a
/// success status with the expected shape, and the exact failure otherwise.
pub fn handshake_outcome(status: u16, body: &str) -> (r: Result<String, AuthError>)
    ensures
        status != 200 ==> r == Err::<String, AuthError>(
            AuthError::HandshakeFailed(HttpFailure::Status(status)),
        ),
        status == 200 && first_value_field(body@) is None ==> r == Err::<String, AuthError>(
            AuthError::HandshakeFailed(HttpFailure::UnexpectedShape),
        ),
        status == 200 && first_value_field(body@) is Some ==> (r matches Ok(t) && t@
            == first_value_field(body@)->0),
{
    if status != 200 {
        return Err(AuthError::HandshakeFailed(HttpFailure::Status(status)));
    }
    match extract_first_value_field(body) {
        Some(token) => Ok(token),
        None => Err(AuthError::HandshakeFailed(HttpFailure::UnexpectedShape)),
    }
}

impl AuthSession {
    /// The held token, for contracts.
    pub closed spec fn spec_token(&self) -> Option<String> {
        self.token
    }

    /// Whether a refresh is in flight, for contracts.
    pub closed spec fn spec_in_flight(&self) -> bool {
        self.refresh_in_flight
    }

    /// The freshly issued token that is not yet persisted, for contracts.
    pub closed spec fn spec_pending_save(&self) -> Option<String> {
        self.pending_save
    }

    /// How many network handshakes this session has issued.
    pub closed spec fn spec_handshakes(&self) -> nat {
        self.handshakes@
    }

    /// How many network refreshes this session has issued.
    pub closed spec fn spec_refreshes(&self) -> nat {
        self.refreshes@
    }

    /// A new session holding the cached token, when there is one.  Fails
    /// only when the HTTP client cannot be initialized.
    pub fn new(cached: Option<String>) -> (r: Result<AuthSession, AuthError>)
        ensures
            r matches Ok(s) ==> {
                &&& s.spec_token() == cached
                &&& !s.spec_in_flight()
                &&& s.spec_pending_save() is None
                &&& s.spec_handshakes() == 0
                &&& s.spec_refreshes() == 0
            },
            r is Err ==> r->Err_0 == AuthError::HandshakeFailed(HttpFailure::Transport),
    {
        match make_client() {
            Ok(client) => Ok(
                AuthSession {
                    client,
                    token: cached,
                    refresh_in_flight: false,
                    pending_save: None,
                    handshakes: Ghost(0),
                    refreshes: Ghost(0),
                },
            ),
            Err(_) => Err(AuthError::HandshakeFailed(HttpFailure::Transport)),
        }
    }

    /// The currently held token: a cheap read of the shared state.
    pub fn current(&self) -> (r: Option<String>)
        ensures
            r == self.spec_token(),
    {
        match &self.token {
            Some(t) => Some(t.clone()),
            None => None,
        }
    }

    /// A token that was freshly issued and still awaits best-effort
    /// persistence; taking it clears the slot.
    pub fn take_pending_save(&mut self) -> (r: Option<String>)
        ensures
            r == old(self).spec_pending_save(),
            final(self).spec_pending_save() is None,
            final(self).spec_token() == old(self).spec_token(),
            final(self).spec_in_flight() == old(self).spec_in_flight(),
            final(self).spec_handshakes() == old(self).spec_handshakes(),
            final(self).spec_refreshes() == old(self).spec_refreshes(),
    {
        let r = match &self.pending_save {
            Some(t) => Some(t.clone()),
            None => None,
        };
        self.pending_save = None;
        r
    }

    /// Hands out a usable bearer token.  With a token already held it is
    /// returned at once and no network request is issued; otherwise exactly
    /// one anonymous-session handshake is issued, and on success the fresh
    /// token is held, returned, and left for best-effort persistence.
    pub fn acquire(&mut self) -> (r: Result<String, AuthError>)
        ensures
            old(self).spec_token() matches Some(t) ==> {
                &&& r == Ok::<String, AuthError>(t)
                &&& final(self).spec_token() == old(self).spec_token()
                &&& final(self).spec_pending_save() == old(self).spec_pending_save()
                &&& final(self).spec_handshakes() == old(self).spec_handshakes()
            },
            old(self).spec_token() is None ==> {
                &&& final(self).spec_handshakes() == old(self).spec_handshakes() + 1
                &&& (r matches Ok(t) ==> final(self).spec_token() == Some(t)
                    && final(self).spec_pending_save() == Some(t))
                &&& (r is Err ==> r->Err_0 is HandshakeFailed && final(self).spec_token() is None
                    && final(self).spec_pending_save() == old(self).spec_pending_save())
            },
            final(self).spec_in_flight() == old(self).spec_in_flight(),
            final(self).spec_refreshes() == old(self).spec_refreshes(),
    {
        match &self.token {
            Some(t) => Ok(t.clone()),
            None => {
                let reply = http_post_json(
                    &self.client,
                    "https://production.dr-massive.com/api/authorization/anonymous-sso?device=web_browser&ff=idp%2Cldp%2Crpt&lang=da",
                    "{\"deviceId\":\"632bdbff-d073-4b6c-85cb-76a0de00506d\",\"scopes\":[\"Catalog\"],\"optout\":true,\"cookieType\":\"Session\"}",
                );
                proof {
                    self.handshakes@ = self.handshakes@ + 1;
                }
                match reply {
                    Err(_) => Err(AuthError::HandshakeFailed(HttpFailure::Transport)),
                    Ok(rep) => {
                        match handshake_outcome(rep.status, rep.body.as_str()) {
                            Ok(token) => {
                                self.token = Some(token.clone());
                                self.pending_save = Some(token.clone());
                                Ok(token)
                            },
                            Err(e) => Err(e),
                        }
                    },
                }
            },
        }
    }

    /// A caller's request to refresh: it becomes the leader exactly when no
    /// refresh is in flight, and a refresh is in flight afterwards either
    /// way.  The leader must issue the network refresh and then call
    /// [`AuthSession::complete_refresh`] or
    /// [`AuthSession::refresh_transport_failed`]; a non-leader waits for
    /// the leader's completion instead and must not issue anything.
    pub fn request_refresh(&mut self) -> (lead: bool)
        ensures
            lead == refresh_lead(old(self).spec_in_flight()),
            final(self).spec_in_flight(),
            final(self).spec_token() == old(self).spec_token(),
            final(self).spec_pending_save() == old(self).spec_pending_save(),
            final(self).spec_handshakes() == old(self).spec_handshakes(),
            final(self).spec_refreshes() == old(self).spec_refreshes(),
    {
        let lead = !self.refresh_in_flight;
        self.refresh_in_flight = true;
        lead
    }

    /// The leader's completion with the refresh response.  On a success
    /// status with the expected shape the shared token is replaced by the
    /// response's token and left for best-effort persistence; on any
    /// failure the previous token stays in place.  Either way the refresh
    /// is no longer in flight and exactly one network refresh was counted.
    pub fn complete_refresh(&mut self, status: u16, body: &str) -> (r: Result<(), AuthError>)
        requires
            old(self).spec_in_flight(),
        ensures
            !final(self).spec_in_flight(),
            final(self).spec_refreshes() == old(self).spec_refreshes() + 1,
            final(self).spec_handshakes() == old(self).spec_handshakes(),
            status != 200 ==> {
                &&& r == Err::<(), AuthError>(AuthError::RefreshRejected(status))
                &&& final(self).spec_token() == old(self).spec_token()
                &&& final(self).spec_pending_save() == old(self).spec_pending_save()
            },
            status == 200 && first_value_field(body@) is None ==> {
                &&& r == Err::<(), AuthError>(AuthError::RefreshShape)
                &&& final(self).spec_token() == old(self).spec_token()
                &&& final(self).spec_pending_save() == old(self).spec_pending_save()
            },
            status == 200 && first_value_field(body@) is Some ==> {
                &&& r is Ok
                &&& final(self).spec_token() matches Some(t) && t@ == first_value_field(body@)->0
                &&& final(self).spec_pending_save() == final(self).spec_token()
            },
    {
        self.refresh_in_flight = false;
        proof {
            self.refreshes@ = self.refreshes@ + 1;
        }
        if status != 200 {
            return Err(AuthError::RefreshRejected(status));
        }
        match extract_first_value_field(body) {
            Some(token) => {
                self.token = Some(token.clone());
                self.pending_save = Some(token);
                Ok(())
            },
            None => Err(AuthError::RefreshShape),
        }
    }

    /// The leader's completion when the refresh request never produced a
    /// response: the refresh is no longer in flight and the previous token
    /// stays in place.
    pub fn refresh_transport_failed(&mut self)
        requires
            old(self).spec_in_flight(),
        ensures
            !final(self).spec_in_flight(),
            final(self).spec_refreshes() == old(self).spec_refreshes() + 1,
            final(self).spec_handshakes() == old(self).spec_handshakes(),
            final(self).spec_token() == old(self).spec_token(),
            final(self).spec_pending_save() == old(self).spec_pending_save(),
    {
        self.refresh_in_flight = false;
        proof {
            self.refreshes@ = self.refreshes@ + 1;
        }
    }

    /// The sequential refresh driver: requests the refresh and, as the
    /// leader, issues the network refresh with the current token and
    /// completes it.  When a refresh is already in flight the caller only
    /// waits — here, where calls cannot overlap, that is a plain `Ok` with
    /// nothing changed.  At most one network refresh is issued.
    pub fn refresh(&mut self) -> (r: Result<(), AuthError>)
        requires
            old(self).spec_token() is Some,
        ensures
            final(self).spec_handshakes() == old(self).spec_handshakes(),
            old(self).spec_in_flight() ==> {
                &&& r is Ok
                &&& final(self).spec_token() == old(self).spec_token()
                &&& final(self).spec_refreshes() == old(self).spec_refreshes()
            },
            !old(self).spec_in_flight() ==> {
                &&& final(self).spec_refreshes() == old(self).spec_refreshes() + 1
                &&& !final(self).spec_in_flight()
                &&& (r is Err ==> final(self).spec_token() == old(self).spec_token())
                &&& (r is Ok ==> final(self).spec_token() is Some)
            },
    {
        let lead = self.request_refresh();
        if !lead {
            return Ok(());
        }
        let token = match &self.token {
            Some(t) => t.clone(),
            None => unreached(),
        };
        let mut post_body = String::from_str("{ \"token\": \"");
        post_body.append(token.as_str());
        post_body.append("\"}");
        let reply = http_post_json(
            &self.client,
            "https://production.dr-massive.com/api/authorization/refresh?ff=idp%2Cldp%2Crpt&lang=da",
            post_body.as_str(),
        );
        match reply {
            Err(_) => {
                self.refresh_transport_failed();
                Err(AuthError::RefreshTransport)
            },
            Ok(rep) => {
                let body = rep.body;
                self.complete_refresh(rep.status, body.as_str())
            },
        }
    }

    /// The shared HTTP client of this session.
    pub(crate) fn client(&self) -> &reqwest::blocking::Client {
        &self.client
    }
}

} // verus!
