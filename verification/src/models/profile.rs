//! The profile that goes with an account.

use vstd::prelude::*;

verus! {

/// The profile of an account, linked to it by `user_id`.
#[derive(Debug, Clone, PartialEq)]
pub struct UserProfile {
    pub profile_id: String,
    pub user_id: String,
    pub first_name: Option<String>,
    pub last_name: Option<String>,
    pub nickname: Option<String>,
    pub position: Option<String>,
}

} // verus!
