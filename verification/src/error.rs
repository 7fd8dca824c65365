//! Error taxonomy of the library.
//!
//! `ParseError` reports a malformed or unrecognized URL and is never
//! retried.  `AuthError` reports a failed handshake or refresh.
//! `ResolveError` and `FetchError` report a non-success HTTP status or a
//! response body whose shape does not match the service contract.
//! `GenericError` is the plain string error of the small utilities.

use vstd::prelude::*;
use vstd::string::StringExecFns;

verus! {

/// A plain string error, used by the small string utilities.
#[derive(Debug)]
pub struct GenericError(pub String);

impl PartialEq for GenericError {
    fn eq(&self, other: &GenericError) -> (r: bool) {
        self.0 == other.0
    }
}

impl vstd::std_specs::cmp::PartialEqSpecImpl for GenericError {
    open spec fn obeys_eq_spec() -> bool {
        true
    }

    open spec fn eq_spec(&self, other: &GenericError) -> bool {
        self.0@ == other.0@
    }
}

impl Eq for GenericError {}

impl GenericError {
    /// The error's message.
    pub fn message(&self) -> (r: &String)
        ensures
            r == &self.0,
    {
        &self.0
    }
}

impl From<&str> for GenericError {
    fn from(val: &str) -> (r: GenericError)
        ensures
            r.0@ == val@,
    {
        GenericError(String::from_str(val))
    }
}

impl vstd::std_specs::convert::FromSpecImpl<&str> for GenericError {
    open spec fn obeys_from_spec() -> bool {
        false
    }

    open spec fn from_spec(val: &str) -> GenericError {
        arbitrary()
    }
}

impl From<String> for GenericError {
    fn from(val: String) -> (r: GenericError) {
        GenericError(val)
    }
}

impl vstd::std_specs::convert::FromSpecImpl<String> for GenericError {
    open spec fn obeys_from_spec() -> bool {
        true
    }

    open spec fn from_spec(val: String) -> GenericError {
        GenericError(val)
    }
}

/// Turns an `Option` into a `Result` with a `GenericError` message.
pub trait OkOrGeneric<T> {
    /// `Ok` of the contained value, or a `GenericError` with the message.
    fn ok_or_generic(self, msg: &str) -> (r: Result<T, GenericError>);
}

impl<T> OkOrGeneric<T> for Option<T> {
    fn ok_or_generic(self, msg: &str) -> (r: Result<T, GenericError>)
        ensures
            self is Some ==> r == Ok::<T, GenericError>(self->0),
            self is None ==> r is Err && r->Err_0.0@ == msg@,
    {
        match self {
            Some(v) => Ok(v),
            None => Err(GenericError(String::from_str(msg))),
        }
    }
}

/// A URL that could not be interpreted.
#[derive(Clone, Copy, Debug, PartialEq, Eq, Structural)]
pub enum ParseError {
    /// A required separator was absent, or the guard pattern did not match.
    MalformedUrl,
    /// Neither the collection nor the item marker occurs in the URL.
    UnrecognizedKind,
}

/// How a single HTTP exchange went wrong.
#[derive(Clone, Copy, Debug, PartialEq, Eq, Structural)]
pub enum HttpFailure {
    /// The request never produced a response.
    Transport,
    /// A response with a non-success status.
    Status(u16),
    /// A success response whose body did not match the expected shape.
    UnexpectedShape,
}

/// A failed token acquisition or refresh.
#[derive(Clone, Copy, Debug, PartialEq, Eq, Structural)]
pub enum AuthError {
    /// The anonymous-session handshake failed.
    HandshakeFailed(HttpFailure),
    /// The refresh request was answered with a non-success status.
    RefreshRejected(u16),
    /// The refresh request never produced a response.
    RefreshTransport,
    /// The refresh response body did not match the expected shape.
    RefreshShape,
}

/// A failed resolution of an item identifier to a media URL.
#[derive(Clone, Copy, Debug, PartialEq, Eq, Structural)]
pub enum ResolveError {
    /// A non-success status other than an authorization rejection.
    HttpStatus(u16),
    /// The response body did not match the expected shape.
    UnexpectedShape,
    /// The request never produced a response.
    Transport,
    /// The refresh triggered by an authorization rejection failed.
    Refresh(AuthError),
    /// The service rejected the credential again after a fresh refresh.
    AuthRejected(u16),
}

/// A failed collection listing or payload fetch.
#[derive(Clone, Copy, Debug, PartialEq, Eq, Structural)]
pub enum FetchError {
    /// A non-success status.
    HttpStatus(u16),
    /// The response body did not match the expected shape.
    UnexpectedShape,
    /// The request never produced a response.
    Transport,
}

/// Why a single item of a collection failed; the failure is recorded in the
/// item's outcome and never aborts the sibling fetches.
#[derive(Clone, Copy, Debug, PartialEq, Eq, Structural)]
pub enum ItemFailure {
    /// The item URL could not be parsed into a descriptor.
    Parse(ParseError),
    /// The item could not be resolved to a media URL.
    Resolve(ResolveError),
    /// The media payload could not be fetched.
    Fetch(FetchError),
}

/// A hard failure of a whole download: the URL was rejected up front, the
/// collection listing itself failed, or a single-item download failed.
#[derive(Clone, Copy, Debug, PartialEq, Eq, Structural)]
pub enum DownloadError {
    /// The URL failed the guard or the classification.
    Unrecognized(ParseError),
    /// The collection listing failed, so there was nothing to fan out over.
    Collection(FetchError),
    /// A single-item download failed.
    Item(ItemFailure),
}

} // verus!
