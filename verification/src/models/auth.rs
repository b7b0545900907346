//! What travels with authentication: token claims and request bodies.

use vstd::prelude::*;

verus! {

/// The claims of an access token: the account's id in hexadecimal, its
/// role, and the expiry in seconds since the Unix epoch.
#[derive(Debug, Clone, PartialEq)]
pub struct Claims {
    pub sub: String,
    pub role: String,
    pub exp: usize,
}

/// The body of a login request.
#[derive(Debug, Clone, PartialEq)]
pub struct AuthRequest {
    pub email: String,
    pub password: String,
}

/// The body of an invitation.
#[derive(Debug, Clone, PartialEq)]
pub struct InviteRequest {
    pub email: String,
    pub password: Option<String>,
    pub role: Option<String>,
    pub first_name: Option<String>,
    pub last_name: Option<String>,
    pub nickname: Option<String>,
    pub position: Option<String>,
}

/// The query of a request for the account behind a setup token.
#[derive(Debug, Clone, PartialEq)]
pub struct SetupPasswordRequest {
    pub token: String,
}

/// The body of a request that sets the first password of an account.
#[derive(Debug, Clone, PartialEq)]
pub struct SetupPasswordPayload {
    pub token: String,
    pub password: String,
}

} // verus!
