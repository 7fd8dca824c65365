//! The HTTP transport, behind trusted wrappers around the blocking client
//! of the `reqwest` crate.  A reply carries only plain values (the numeric
//! status code and the body text); what a reply holds depends on the
//! network, so the wrappers promise nothing about it, and the verified
//! callers state what holds of every outcome.

use vstd::prelude::*;

verus! {

/// One HTTP response: the numeric status code and the body text.
pub struct HttpReply {
    pub status: u16,
    pub body: String,
}

#[verifier::external_type_specification]
#[verifier::external_body]
pub struct ExClient(reqwest::blocking::Client);

#[verifier::external_type_specification]
#[verifier::external_body]
pub struct ExReqwestError(reqwest::Error);

/// Relies on `reqwest::blocking::ClientBuilder::build`: a client with the
/// default configuration, or the initialization error.
#[verifier::external_body]
pub(crate) fn make_client() -> Result<reqwest::blocking::Client, reqwest::Error> {
    reqwest::blocking::Client::builder().build()
}

/// Relies on `reqwest::blocking::Client::get`, `RequestBuilder::send`,
/// `Response::status` and `Response::text`: issues an unauthenticated GET
/// and hands back the response's status code and body text.
#[verifier::external_body]
pub(crate) fn http_get(client: &reqwest::blocking::Client, url: &str) -> Result<
    HttpReply,
    reqwest::Error,
> {
    let response = client.get(url).send()?;
    let status = response.status().as_u16();
    let body = response.text()?;
    Ok(HttpReply { status, body })
}

/// Relies on `reqwest::blocking::Client::get`, `RequestBuilder::bearer_auth`,
/// `RequestBuilder::send`, `Response::status` and `Response::text`: issues a
/// GET with the token as bearer authorization and hands back the response's
/// status code and body text.
#[verifier::external_body]
pub(crate) fn http_get_bearer(
    client: &reqwest::blocking::Client,
    url: &str,
    token: &str,
) -> Result<HttpReply, reqwest::Error> {
    let response = client.get(url).bearer_auth(token).send()?;
    let status = response.status().as_u16();
    let body = response.text()?;
    Ok(HttpReply { status, body })
}

/// Relies on `reqwest::blocking::Client::post`, `RequestBuilder::header`,
/// `RequestBuilder::body`, `RequestBuilder::send`, `Response::status` and
/// `Response::text`: issues a POST with the body as `application/json` and
/// hands back the response's status code and body text.
#[verifier::external_body]
pub(crate) fn http_post_json(
    client: &reqwest::blocking::Client,
    url: &str,
    body: &str,
) -> Result<HttpReply, reqwest::Error> {
    let response = client.post(url).header("Content-Type", "application/json").body(
        body.to_owned(),
    ).send()?;
    let status = response.status().as_u16();
    let text = response.text()?;
    Ok(HttpReply { status, body: text })
}

} // verus!
