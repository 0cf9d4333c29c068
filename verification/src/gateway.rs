//! Request-level admission: decide per request whether it passes through
//! unauthenticated, must have its bearer token validated, or is rejected
//! outright.

use vstd::prelude::*;

use crate::text::{has_bearer_prefix, str_eq, strip_bearer};

verus! {

/// What the gateway decided about one inbound request, before any
/// cryptography is involved.
pub enum AuthDecision {
    /// The path is on the unauthenticated allow-list: pass through.
    PassThrough,
    /// A bearer token was presented: validate this token.
    Validate(String),
    /// No bearer token was presented on a protected path: reject
    /// immediately.
    Reject,
}

/// The unauthenticated allow-list: only the health check passes through
/// without credentials.
pub open spec fn spec_is_open_path(path: Seq<char>) -> bool {
    path == "/health"@
}

/// Decide one request from its path and its authorization header value, if
/// any.  An allow-listed path always passes through; otherwise the request
/// is rejected unless the header carries a bearer-scheme token, which is
/// handed on for validation.
pub fn auth_decision(path: &str, auth_header: Option<&str>) -> (r: AuthDecision)
    ensures
        spec_is_open_path(path@) ==> r is PassThrough,
        !spec_is_open_path(path@) ==> match auth_header {
            None => r is Reject,
            Some(h) => {
                &&& has_bearer_prefix(h@) ==> (r matches AuthDecision::Validate(t)
                    && t@ == h@.skip(7))
                &&& !has_bearer_prefix(h@) ==> r is Reject
            },
        },
{
    if str_eq(path, "/health") {
        return AuthDecision::PassThrough;
    }
    match auth_header {
        None => AuthDecision::Reject,
        Some(h) => match strip_bearer(h) {
            Some(token) => AuthDecision::Validate(token.to_owned()),
            None => AuthDecision::Reject,
        },
    }
}

} // verus!
