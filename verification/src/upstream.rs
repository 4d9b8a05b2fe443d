//! The GraphQL client: its configuration, and the decisions it takes on each
//! response from the upstream Unraid API.
//!
//! The HTTP exchange itself happens at the edge; the functions here decide, from
//! what the exchange produced, which typed [`UpstreamError`] (if any) the caller
//! sees. Every error carries only a category-level message: raw upstream bodies
//! and GraphQL `errors` never reach the caller.

use vstd::prelude::*;
use crate::text::{concat2, owned};

verus! {

/// Typed classification of a failure talking to the upstream Unraid GraphQL API.
#[derive(Clone, Debug, PartialEq, Eq)]
pub enum UpstreamError {
    /// Could not reach the upstream (connection refused, DNS, TLS handshake, timeout).
    Unreachable(String),
    /// Upstream rejected our credentials (HTTP 401/403).
    Auth(String),
    /// Any other upstream-side failure (5xx, GraphQL errors, malformed response).
    Other(String),
}

/// The message an upstream error carries.
pub open spec fn spec_upstream_message(e: UpstreamError) -> Seq<char> {
    match e {
        UpstreamError::Unreachable(m) => m@,
        UpstreamError::Auth(m) => m@,
        UpstreamError::Other(m) => m@,
    }
}

impl UpstreamError {
    /// The message this error displays.
    pub fn message(&self) -> (r: &str)
        ensures
            r@ == spec_upstream_message(*self),
    {
        match self {
            UpstreamError::Unreachable(m) => m.as_str(),
            UpstreamError::Auth(m) => m.as_str(),
            UpstreamError::Other(m) => m.as_str(),
        }
    }
}

/// The error for a request that failed before any response arrived. Connection
/// failures and timeouts mean the upstream is unreachable; anything else is a
/// generic pre-response failure. Both are [`UpstreamError::Unreachable`].
pub fn transport_failure(is_connect: bool, is_timeout: bool) -> (r: UpstreamError)
    ensures
        r matches UpstreamError::Unreachable(m) && m@ == (if is_connect || is_timeout {
            "upstream unreachable — is UNRAID_API_URL reachable?"@
        } else {
            "upstream request failed before a response was received"@
        }),
{
    if is_connect || is_timeout {
        UpstreamError::Unreachable(owned("upstream unreachable — is UNRAID_API_URL reachable?"))
    } else {
        UpstreamError::Unreachable(owned("upstream request failed before a response was received"))
    }
}

/// Whether an HTTP status code is a success (2xx).
pub open spec fn is_success_status(status: u16) -> bool {
    200 <= status && status <= 299
}

/// The error, if any, that an HTTP status by itself implies. `status_text` is the
/// status as displayed (code and canonical reason, e.g. `500 Internal Server Error`).
/// 401 and 403 are credential rejections; any other non-2xx status is an upstream
/// failure; a 2xx status implies no error and the body is read next.
pub fn status_failure(status: u16, status_text: &str) -> (r: Option<UpstreamError>)
    ensures
        (status == 401 || status == 403) ==> (r matches Some(UpstreamError::Auth(m))
            && m@ == "upstream rejected the request — check that UNRAID_API_KEY is correct and has not expired"@),
        !(status == 401 || status == 403) && !is_success_status(status) ==> (r matches Some(UpstreamError::Other(m))
            && m@ == "upstream returned HTTP "@ + status_text@),
        is_success_status(status) ==> r is None,
{
    if status == 401 || status == 403 {
        Some(UpstreamError::Auth(owned(
            "upstream rejected the request — check that UNRAID_API_KEY is correct and has not expired",
        )))
    } else if !(200 <= status && status <= 299) {
        Some(UpstreamError::Other(concat2("upstream returned HTTP ", status_text)))
    } else {
        None
    }
}

/// What the body of a successful HTTP response held, once parsed as JSON: whether
/// it has a top-level `errors` member, and its top-level `data` member.
pub struct GraphqlBody<T> {
    pub has_errors: bool,
    pub data: Option<T>,
}

/// The outcome of a 2xx response, from its parsed body (`None` when the body is
/// not JSON): the `data` payload, or the category of failure. GraphQL `errors`
/// take precedence over any `data`.
pub fn body_outcome<T>(body: Option<GraphqlBody<T>>) -> (r: Result<T, UpstreamError>)
    ensures
        match body {
            None => r matches Err(UpstreamError::Other(m))
                && m@ == "upstream returned an unexpected non-JSON response"@,
            Some(b) => if b.has_errors {
                r matches Err(UpstreamError::Other(m))
                    && m@ == "upstream GraphQL error — see server logs for details"@
            } else {
                match b.data {
                    Some(d) => r == Ok::<T, UpstreamError>(d),
                    None => r matches Err(UpstreamError::Other(m))
                        && m@ == "upstream GraphQL response missing 'data' field"@,
                }
            },
        },
{
    match body {
        None => Err(UpstreamError::Other(owned("upstream returned an unexpected non-JSON response"))),
        Some(b) => {
            if b.has_errors {
                Err(UpstreamError::Other(owned("upstream GraphQL error — see server logs for details")))
            } else {
                match b.data {
                    Some(d) => Ok(d),
                    None => Err(UpstreamError::Other(owned("upstream GraphQL response missing 'data' field"))),
                }
            }
        },
    }
}

/// The outcome of decoding a `data` payload into the typed shape of an operation
/// (`None` when it does not decode).
pub fn typed_outcome<T>(decoded: Option<T>) -> (r: Result<T, UpstreamError>)
    ensures
        match decoded {
            Some(t) => r == Ok::<T, UpstreamError>(t),
            None => r matches Err(UpstreamError::Other(m))
                && m@ == "upstream response shape did not match the schema"@,
        },
{
    match decoded {
        Some(t) => Ok(t),
        None => Err(UpstreamError::Other(owned("upstream response shape did not match the schema"))),
    }
}

} // verus!
