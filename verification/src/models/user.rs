//! Accounts.

use vstd::prelude::*;

verus! {

/// Whether an account is active when nothing says so: it is not.
pub fn default_is_active() -> (active: bool)
    ensures
        !active,
{
    false
}

/// The role of an account when nothing names one.
pub fn default_role() -> (role: String)
    ensures
        role@ == "user"@,
{
    "user".to_string()
}

/// An account. `id` is the key persistence gave it, in hexadecimal;
/// `created_at` is in milliseconds since the Unix epoch, UTC.
#[derive(Debug, Clone, PartialEq)]
pub struct User {
    pub id: Option<String>,
    pub user_id: String,
    pub email: String,
    pub role: String,
    pub password_hash: Option<String>,
    pub created_at: i64,
    pub setup_token: Option<String>,
    pub is_active: bool,
}

} // verus!
