//! Core of an authorization gateway in front of a relational-database query
//! endpoint: token validation against the identity provider's published key
//! set (fetched and TTL-cached through a fetch-if-stale protocol), the
//! per-request allow/deny decision, and a bounded-concurrency session gate
//! for database work.  The surrounding program does the network and database
//! I/O; everything that decides is specified and proved here.

pub mod config;
pub mod gateway;
pub mod keyset;
pub mod oidc;
pub mod session;
pub mod text;

use vstd::prelude::*;

verus! {

/// The causes on which token validation can fail. All of them collapse to a
/// uniform unauthorized response at the HTTP boundary.
#[derive(Debug, PartialEq, Eq, Structural)]
pub enum AuthError {
    /// The token's unsigned header could not be parsed.
    MalformedToken,
    /// The provider's key-set document could not be fetched or parsed.
    KeySetFetch,
    /// No key in the current key set matches the token's declared key id.
    KeyNotFound,
    /// The selected key has an unsupported type or is structurally incomplete.
    UnsupportedKeyType,
    /// The token's signature does not verify against the selected key.
    SignatureInvalid,
    /// Issuer, audience or expiry does not match the configuration.
    ClaimInvalid,
}

/// Every authentication failure is reported to the client as 401, whatever
/// its internal cause: the cause is logged server-side only, so that the
/// response aids no credential probing.
pub fn http_status_for_auth_error(e: &AuthError) -> (r: u16)
    ensures
        r == 401,
{
    let _ = e;
    401
}

/// What went wrong while running a statement for an authorized request.
#[derive(Debug, PartialEq, Eq, Structural)]
pub enum DbError {
    /// The session gate could not admit the request within its deadline: a
    /// service-capacity problem, not the caller's fault.
    ConnectionExhaustedOrTimeout,
    /// The database rejected the statement the caller supplied.
    QueryExecution,
}

/// Capacity problems surface as 500; a statement the database rejected is
/// the caller's fault and surfaces as 400.
pub fn http_status_for_db_error(e: &DbError) -> (r: u16)
    ensures
        e is ConnectionExhaustedOrTimeout ==> r == 500,
        e is QueryExecution ==> r == 400,
{
    match e {
        DbError::ConnectionExhaustedOrTimeout => 500,
        DbError::QueryExecution => 400,
    }
}

} // verus!
