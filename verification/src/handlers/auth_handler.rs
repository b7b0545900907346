//! Who is asking: where the access token of a request is found, and who may
//! invite new accounts.

use crate::models::auth::Claims;
use crate::text::{begins_with, opt_text, str_eq, text_behind};
use vstd::prelude::*;
use vstd::string::*;

verus! {

/// The seconds an access token stays valid: seven days.
pub const TOKEN_LIFETIME_SECONDS: i64 = 604_800;

/// The name of the cookie that may carry the access token.
pub fn token_cookie_name() -> (name: String)
    ensures
        name@ == "_khun_ph_token"@,
{
    "_khun_ph_token".to_string()
}

/// The access token of a request. With an `Authorization` header the token
/// is what follows `Bearer ` in it, and there is none if the header does not
/// begin so; without the header the token is the value of the token cookie.
pub open spec fn access_token(
    authorization: Option<Seq<char>>,
    cookie: Option<Seq<char>>,
) -> Option<Seq<char>> {
    match authorization {
        Some(header) => if begins_with(header, "Bearer "@) {
            Some(header.skip("Bearer "@.len() as int))
        } else {
            None
        },
        None => cookie,
    }
}

/// The access token of a request, from the value of its `Authorization`
/// header and the value of its token cookie.
pub fn extract_token(authorization: Option<&str>, cookie: Option<&str>) -> (token: Option<String>)
    ensures
        opt_text(token) == access_token(
            match authorization {
                Some(header) => Some(header@),
                None => None,
            },
            match cookie {
                Some(value) => Some(value@),
                None => None,
            },
        ),
{
    match authorization {
        Some(header) => text_behind(header, "Bearer "),
        None => match cookie {
            Some(value) => Some(value.to_string()),
            None => None,
        },
    }
}

/// When a token issued at `now_secs` expires, in seconds since the Unix
/// epoch; nothing where that instant cannot be written in a `usize`.
pub fn token_expiry(now_secs: i64) -> (exp: Option<usize>)
    ensures
        match exp {
            Some(at) => at == now_secs + TOKEN_LIFETIME_SECONDS,
            None => now_secs + TOKEN_LIFETIME_SECONDS < 0 || now_secs + TOKEN_LIFETIME_SECONDS
                > usize::MAX,
        },
{
    let at: i128 = now_secs as i128 + TOKEN_LIFETIME_SECONDS as i128;
    if at < 0 || at > usize::MAX as i128 {
        None
    } else {
        Some(at as usize)
    }
}

/// Whether a request may do what only administrators may.
#[derive(Debug, Clone, Copy, PartialEq, Eq)]
pub enum AdminGate {
    /// The caller is an administrator.
    Allowed,
    /// The request carries no valid token.
    Unauthorized,
    /// The caller is no administrator.
    AdminRequired,
}

impl AdminGate {
    /// The HTTP status with which the request is turned away, if it is:
    /// 401 without a valid token, 403 for a caller who is no administrator.
    pub fn refusal_status(&self) -> (status: Option<u16>)
        ensures
            status == match *self {
                AdminGate::Allowed => None,
                AdminGate::Unauthorized => Some(401u16),
                AdminGate::AdminRequired => Some(403u16),
            },
    {
        match self {
            AdminGate::Allowed => None,
            AdminGate::Unauthorized => Some(401),
            AdminGate::AdminRequired => Some(403),
        }
    }
}

/// Whether the caller with the role `caller_role`, if there is a caller, may
/// do what only administrators may.
pub open spec fn admin_gate_for(caller_role: Option<Seq<char>>) -> AdminGate {
    match caller_role {
        None => AdminGate::Unauthorized,
        Some(role) => if role == "admin"@ {
            AdminGate::Allowed
        } else {
            AdminGate::AdminRequired
        },
    }
}

/// The role in `claims`, if there are claims.
pub open spec fn role_of(claims: Option<&Claims>) -> Option<Seq<char>> {
    match claims {
        Some(c) => Some(c.role@),
        None => None,
    }
}

/// Whether the caller with `claims` may do what only administrators may.
pub fn admin_gate(claims: Option<&Claims>) -> (gate: AdminGate)
    ensures
        gate == admin_gate_for(role_of(claims)),
{
    match claims {
        None => AdminGate::Unauthorized,
        Some(c) => if str_eq(c.role.as_str(), "admin") {
            AdminGate::Allowed
        } else {
            AdminGate::AdminRequired
        },
    }
}

/// Whether a request may invite a new account.
#[derive(Debug, Clone, Copy, PartialEq, Eq)]
pub enum InviteGate {
    /// The invitation goes ahead.
    Allowed,
    /// There is no account yet and the request does not carry the setup
    /// token.
    SetupTokenRequired,
    /// The request carries no valid token.
    Unauthorized,
    /// The caller is no administrator.
    AdminRequired,
}

impl InviteGate {
    /// The HTTP status with which the request is turned away, if it is:
    /// 401 without a valid token, 403 without the setup token and for a
    /// caller who is no administrator.
    pub fn refusal_status(&self) -> (status: Option<u16>)
        ensures
            status == match *self {
                InviteGate::Allowed => None,
                InviteGate::Unauthorized => Some(401u16),
                InviteGate::SetupTokenRequired => Some(403u16),
                InviteGate::AdminRequired => Some(403u16),
            },
    {
        match self {
            InviteGate::Allowed => None,
            InviteGate::Unauthorized => Some(401),
            InviteGate::SetupTokenRequired => Some(403),
            InviteGate::AdminRequired => Some(403),
        }
    }
}

/// Whether a request may invite a new account.
///
/// While there is no account, the first invitation needs the setup token:
/// it goes ahead only if a setup token is configured and the request
/// carries that very token. Once an account exists, only an administrator
/// may invite.
pub open spec fn invite_gate_for(
    user_count: int,
    setup_token: Option<Seq<char>>,
    provided_token: Option<Seq<char>>,
    caller_role: Option<Seq<char>>,
) -> InviteGate {
    if user_count == 0 {
        if setup_token is Some && provided_token == setup_token {
            InviteGate::Allowed
        } else {
            InviteGate::SetupTokenRequired
        }
    } else {
        match admin_gate_for(caller_role) {
            AdminGate::Allowed => InviteGate::Allowed,
            AdminGate::Unauthorized => InviteGate::Unauthorized,
            AdminGate::AdminRequired => InviteGate::AdminRequired,
        }
    }
}

/// Whether a request may invite a new account, given the number of accounts
/// there are, the setup token that is configured, the setup token that the
/// request carries, and the claims of the caller.
pub fn invite_gate(
    user_count: u64,
    setup_token: Option<&str>,
    provided_token: Option<&str>,
    claims: Option<&Claims>,
) -> (gate: InviteGate)
    ensures
        gate == invite_gate_for(
            user_count as int,
            match setup_token {
                Some(token) => Some(token@),
                None => None,
            },
            match provided_token {
                Some(token) => Some(token@),
                None => None,
            },
            role_of(claims),
        ),
{
    if user_count == 0 {
        match (setup_token, provided_token) {
            (Some(expected), Some(provided)) => if str_eq(expected, provided) {
                InviteGate::Allowed
            } else {
                InviteGate::SetupTokenRequired
            },
            _ => InviteGate::SetupTokenRequired,
        }
    } else {
        match admin_gate(claims) {
            AdminGate::Allowed => InviteGate::Allowed,
            AdminGate::Unauthorized => InviteGate::Unauthorized,
            AdminGate::AdminRequired => InviteGate::AdminRequired,
        }
    }
}

/// What the inviter is told.
#[derive(Debug, Clone, PartialEq)]
pub enum InviteAnswer {
    /// The account was created with a password and is active.
    Activated,
    /// The account waits for its password; `link` leads to the page where it
    /// is set.
    SetupLink { link: String },
}

/// What the inviter is told for the outcome `token` of an invitation: the
/// word `ACTV` stands for an account that is active already, anything else
/// is the setup token of the account.
pub fn invite_answer(token: &str) -> (answer: InviteAnswer)
    ensures
        token@ == "ACTV"@ ==> answer == InviteAnswer::Activated,
        token@ != "ACTV"@ ==> (answer matches InviteAnswer::SetupLink { link } && link@
            == "/setup-password?token="@ + token@),
{
    if str_eq(token, "ACTV") {
        InviteAnswer::Activated
    } else {
        let mut link = "/setup-password?token=".to_string();
        link.append(token);
        InviteAnswer::SetupLink { link }
    }
}

} // verus!
