//! Routing of tool-call failures at the MCP protocol boundary.
//!
//! The variant of a [`ToolError`], not its message, decides whether a failure is
//! an agent-correctable protocol `invalid_params` error or an in-band tool error
//! that keeps the session alive.

use vstd::prelude::*;
use crate::text::concat3;
use crate::upstream::UpstreamError;

verus! {

/// A failure reported by the service layer: an upstream error, possibly wrapped
/// in layers of context, or some other failure described by its message.
#[derive(Debug)]
pub enum ServiceError {
    /// A classified upstream failure.
    Upstream(UpstreamError),
    /// Any other failure.
    Message(String),
    /// `inner`, with an added layer of context.
    Context(String, Box<ServiceError>),
}

/// The upstream error somewhere in the chain of `e`, if any.
pub open spec fn spec_find_upstream(e: ServiceError) -> Option<UpstreamError>
    decreases e,
{
    match e {
        ServiceError::Upstream(u) => Some(u),
        ServiceError::Message(_) => None,
        ServiceError::Context(_, inner) => spec_find_upstream(*inner),
    }
}

/// The message of the outermost layer of `e`.
pub open spec fn spec_service_error_message(e: ServiceError) -> Seq<char> {
    match e {
        ServiceError::Upstream(u) => crate::upstream::spec_upstream_message(u),
        ServiceError::Message(m) => m@,
        ServiceError::Context(c, _) => c@,
    }
}

impl ServiceError {
    /// The upstream error somewhere in this chain, looked up through every
    /// layer of context.
    pub fn find_upstream(&self) -> (r: Option<&UpstreamError>)
        ensures
            match spec_find_upstream(*self) {
                Some(u) => r == Some(&u),
                None => r is None,
            },
        decreases self,
    {
        match self {
            ServiceError::Upstream(u) => Some(u),
            ServiceError::Message(_) => None,
            ServiceError::Context(_, inner) => inner.find_upstream(),
        }
    }

    /// This error with a further layer of context.
    pub fn context(self, c: String) -> (r: ServiceError)
        ensures
            r == ServiceError::Context(c, Box::new(self)),
    {
        ServiceError::Context(c, Box::new(self))
    }

    /// The message of the outermost layer (what the error displays).
    pub fn message(&self) -> (r: &str)
        ensures
            r@ == spec_service_error_message(*self),
    {
        match self {
            ServiceError::Upstream(u) => u.message(),
            ServiceError::Message(m) => m.as_str(),
            ServiceError::Context(c, _) => c.as_str(),
        }
    }
}

/// Typed outcome of a failed tool dispatch.
#[derive(Debug)]
pub enum ToolError {
    /// Missing/malformed argument, unknown action, or unknown tool: the caller
    /// can fix the request and retry. Routes to protocol `invalid_params`.
    InvalidParams(String),
    /// Could not reach the upstream Unraid API. In-band tool error.
    UpstreamUnreachable(String),
    /// Upstream rejected our credentials (401/403). In-band tool error.
    UpstreamAuth(String),
    /// Any other upstream-side failure. In-band tool error.
    Upstream(String),
    /// Internal/unexpected error. In-band tool error.
    Internal(ServiceError),
}

/// The message a tool error displays.
pub open spec fn spec_tool_error_message(e: ToolError) -> Seq<char> {
    match e {
        ToolError::InvalidParams(m) => m@,
        ToolError::UpstreamUnreachable(m) => m@,
        ToolError::UpstreamAuth(m) => m@,
        ToolError::Upstream(m) => m@,
        ToolError::Internal(inner) => spec_service_error_message(inner),
    }
}

impl ToolError {
    /// True when this failure is an agent-correctable input mistake that should be
    /// surfaced as a protocol-level `invalid_params` error.
    pub fn is_invalid_params(&self) -> (r: bool)
        ensures
            r == (*self is InvalidParams),
    {
        match self {
            ToolError::InvalidParams(_) => true,
            _ => false,
        }
    }

    /// The message this error displays.
    pub fn message(&self) -> (r: &str)
        ensures
            r@ == spec_tool_error_message(*self),
    {
        match self {
            ToolError::InvalidParams(m) => m.as_str(),
            ToolError::UpstreamUnreachable(m) => m.as_str(),
            ToolError::UpstreamAuth(m) => m.as_str(),
            ToolError::Upstream(m) => m.as_str(),
            ToolError::Internal(inner) => inner.message(),
        }
    }
}

/// The message for an action that failed because the upstream is unreachable.
pub open spec fn spec_unreachable_message(action: Seq<char>, reason: Seq<char>) -> Seq<char> {
    "ERROR: "@ + action + " failed — upstream unreachable\nReason: "@ + reason
        + "\nHint: check that UNRAID_API_URL is reachable and UNRAID_API_KEY is valid.\nUse action=status to check server health."@
}

/// The message for an action whose API key the upstream rejected.
pub open spec fn spec_auth_message(action: Seq<char>, reason: Seq<char>) -> Seq<char> {
    "ERROR: "@ + action + " failed — API key rejected\nReason: "@ + reason
        + "\nHint: check that UNRAID_API_KEY is correct and has not expired."@
}

/// The message for an action that failed upstream for any other reason.
pub open spec fn spec_upstream_failure_message(action: Seq<char>, reason: Seq<char>) -> Seq<char> {
    "ERROR: "@ + action + " failed\nReason: "@ + reason
        + "\nHint: check UNRAID_API_URL and UNRAID_API_KEY. Use action=status to check server health."@
}

/// `r` is the classification of service error `err` raised by `action`.
pub open spec fn classified_as(err: ServiceError, action: Seq<char>, r: ToolError) -> bool {
    match spec_find_upstream(err) {
        Some(UpstreamError::Unreachable(m)) => r matches ToolError::UpstreamUnreachable(x)
            && x@ == spec_unreachable_message(action, m@),
        Some(UpstreamError::Auth(m)) => r matches ToolError::UpstreamAuth(x) && x@ == spec_auth_message(action, m@),
        Some(UpstreamError::Other(m)) => r matches ToolError::Upstream(x)
            && x@ == spec_upstream_failure_message(action, m@),
        None => r matches ToolError::Internal(inner) && inner matches ServiceError::Context(c, e)
            && c@ == action + " failed"@ && *e == err,
    }
}

fn build_message(a: &str, b: &str, c: &str, d: &str, e: &str) -> (r: String)
    ensures
        r@ == a@ + b@ + c@ + d@ + e@,
{
    let mut r = concat3(a, b, c);
    r.append(d);
    r.append(e);
    r
}

/// Maps a service-layer error to the right [`ToolError`] variant. Routing is by
/// the typed source: if the error chain holds an [`UpstreamError`], its variant
/// decides, and the message is wrapped with action-specific guidance; anything
/// else is an internal failure, given the context `"<action> failed"`.
pub fn classify_service_error(err: ServiceError, action: &str) -> (r: ToolError)
    ensures
        classified_as(err, action@, r),
{
    let routed = match err.find_upstream() {
        Some(UpstreamError::Unreachable(msg)) => Some(ToolError::UpstreamUnreachable(build_message(
            "ERROR: ",
            action,
            " failed — upstream unreachable\nReason: ",
            msg.as_str(),
            "\nHint: check that UNRAID_API_URL is reachable and UNRAID_API_KEY is valid.\nUse action=status to check server health.",
        ))),
        Some(UpstreamError::Auth(msg)) => Some(ToolError::UpstreamAuth(build_message(
            "ERROR: ",
            action,
            " failed — API key rejected\nReason: ",
            msg.as_str(),
            "\nHint: check that UNRAID_API_KEY is correct and has not expired.",
        ))),
        Some(UpstreamError::Other(msg)) => Some(ToolError::Upstream(build_message(
            "ERROR: ",
            action,
            " failed\nReason: ",
            msg.as_str(),
            "\nHint: check UNRAID_API_URL and UNRAID_API_KEY. Use action=status to check server health.",
        ))),
        None => None,
    };
    match routed {
        Some(t) => t,
        None => {
            let mut c = String::from_str(action);
            c.append(" failed");
            ToolError::Internal(err.context(c))
        },
    }
}

/// Classifying a service error never yields `invalid_params`: upstream and
/// internal failures are always in-band tool errors.
pub proof fn lemma_service_errors_route_in_band(err: ServiceError, action: Seq<char>, r: ToolError)
    requires
        classified_as(err, action, r),
    ensures
        !(r is InvalidParams),
{
}

/// Routing survives added context layers: wrapping a service error in context
/// does not change how it is classified, and for an upstream error it does not
/// change the resulting message either.
pub proof fn lemma_classification_ignores_context(
    err: ServiceError,
    c: String,
    action: Seq<char>,
    r1: ToolError,
    r2: ToolError,
)
    requires
        classified_as(err, action, r1),
        classified_as(ServiceError::Context(c, Box::new(err)), action, r2),
    ensures
        (r1 is UpstreamUnreachable) == (r2 is UpstreamUnreachable),
        (r1 is UpstreamAuth) == (r2 is UpstreamAuth),
        (r1 is Upstream) == (r2 is Upstream),
        (r1 is Internal) == (r2 is Internal),
        !(r1 is Internal) ==> spec_tool_error_message(r1) == spec_tool_error_message(r2),
{
}

} // verus!
