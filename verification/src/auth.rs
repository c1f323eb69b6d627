//! Authorization header values for the two service families.
//!
//! Helix calls authenticate with `Authorization: Bearer <token>` plus a
//! `Client-Id` header; OAuth calls with `Authorization: OAuth <token>`.
//! The header values are plain text; sending them is the host
//! application's job.

use vstd::prelude::*;
use vstd::string::StringExecFns;

verus! {

/// The `Authorization` header value of an OAuth-service call.
pub fn oauth_header_value(token: &str) -> (r: String)
    ensures
        r@ == "OAuth "@ + token@,
{
    let mut s = String::from_str("OAuth ");
    s.append(token);
    s
}

/// The `Authorization` header value of a Helix call.
pub fn bearer_header_value(token: &str) -> (r: String)
    ensures
        r@ == "Bearer "@ + token@,
{
    let mut s = String::from_str("Bearer ");
    s.append(token);
    s
}

} // verus!
