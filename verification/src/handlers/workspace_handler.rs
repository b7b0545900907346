//! Who may reach a workspace, and what a change of its digest settings
//! keeps.

use crate::models::workspace::{NotificationConfig, UpdateNotificationConfigRequest, Workspace};
use crate::services::notification_service::NotificationConfigView;
use crate::text::{opt_text, str_eq, texts};
use vstd::prelude::*;

verus! {

/// Whether the account `user_id` may reach `workspace`: it owns the
/// workspace, or the workspace is among those in which it is listed as an
/// assignee.
pub open spec fn may_access(
    workspace: Workspace,
    user_id: Seq<char>,
    assigned: Seq<Seq<char>>,
) -> bool {
    workspace.owner_id@ == user_id || (workspace.id matches Some(id) && assigned.contains(id@))
}

/// Whether `needle` is among `list`.
pub fn contains_text(list: &Vec<String>, needle: &str) -> (found: bool)
    ensures
        found == texts(list@).contains(needle@),
{
    let mut i: usize = 0;
    while i < list.len()
        invariant
            i <= list.len(),
            forall|j: int| 0 <= j < i ==> texts(list@)[j] != needle@,
        decreases list.len() - i,
    {
        if str_eq(list[i].as_str(), needle) {
            assert(texts(list@)[i as int] == needle@);
            return true;
        }
        i += 1;
    }
    false
}

/// Answers whether the account `user_id` may reach the workspace bound to a
/// room code. `workspace` is the workspace bound to the code, if there is
/// one; `assigned` holds the ids of the workspaces in which the account is
/// listed as an assignee. There is no answer without a workspace.
pub fn check_workspace_access(
    workspace: Option<&Workspace>,
    user_id: &str,
    assigned: &Vec<String>,
) -> (access: Option<bool>)
    ensures
        access == match workspace {
            Some(w) => Some(may_access(*w, user_id@, texts(assigned@))),
            None => None,
        },
{
    match workspace {
        Some(w) => {
            if str_eq(w.owner_id.as_str(), user_id) {
                return Some(true);
            }
            match &w.id {
                Some(id) => Some(contains_text(assigned, id.as_str())),
                None => Some(false),
            }
        },
        None => None,
    }
}

/// Why a request on the data of a workspace is turned away.
#[derive(Debug, Clone, Copy, PartialEq, Eq)]
pub enum AccessError {
    /// There is no such workspace.
    NotFound,
    /// The caller may not reach the workspace.
    Forbidden,
}

impl AccessError {
    /// The HTTP status that goes with the error: 404 for a workspace that
    /// is not there, 403 for one the caller may not reach.
    pub fn status(&self) -> (status: u16)
        ensures
            status == match *self {
                AccessError::NotFound => 404u16,
                AccessError::Forbidden => 403u16,
            },
    {
        match self {
            AccessError::NotFound => 404,
            AccessError::Forbidden => 403,
        }
    }
}

/// Lets a request on the data of a workspace pass if its caller may reach
/// the workspace.
pub fn verify_workspace_access(
    workspace: Option<&Workspace>,
    user_id: &str,
    assigned: &Vec<String>,
) -> (verdict: Result<(), AccessError>)
    ensures
        verdict == match workspace {
            Some(w) => if may_access(*w, user_id@, texts(assigned@)) {
                Ok::<(), AccessError>(())
            } else {
                Err::<(), AccessError>(AccessError::Forbidden)
            },
            None => Err::<(), AccessError>(AccessError::NotFound),
        },
{
    match check_workspace_access(workspace, user_id, assigned) {
        Some(true) => Ok(()),
        Some(false) => Err(AccessError::Forbidden),
        None => Err(AccessError::NotFound),
    }
}

/// Lets a request that only the owner of a workspace may make pass if its
/// caller owns the workspace.
pub fn verify_workspace_owner(workspace: Option<&Workspace>, user_id: &str) -> (verdict: Result<
    (),
    AccessError,
>)
    ensures
        verdict == match workspace {
            Some(w) => if w.owner_id@ == user_id@ {
                Ok::<(), AccessError>(())
            } else {
                Err::<(), AccessError>(AccessError::Forbidden)
            },
            None => Err::<(), AccessError>(AccessError::NotFound),
        },
{
    match workspace {
        Some(w) => if str_eq(w.owner_id.as_str(), user_id) {
            Ok(())
        } else {
            Err(AccessError::Forbidden)
        },
        None => Err(AccessError::NotFound),
    }
}

/// The digest settings a request asks for, on top of the settings there
/// were: everything as the request says, and the time of the last digest as
/// it was recorded.
pub fn merged_notification_config(
    request: UpdateNotificationConfigRequest,
    existing: Option<&NotificationConfig>,
) -> (config: NotificationConfig)
    ensures
        config@ == (NotificationConfigView {
            webhook_url: opt_text(request.discord_webhook_url),
            enabled: request.enabled,
            days: request.days@,
            time: request.time@,
            last_sent_at: match existing {
                Some(e) => e@.last_sent_at,
                None => None,
            },
        }),
{
    NotificationConfig {
        discord_webhook_url: request.discord_webhook_url,
        enabled: request.enabled,
        days: request.days,
        time: request.time,
        last_sent_at: match existing {
            Some(e) => e.last_sent_at,
            None => None,
        },
    }
}

} // verus!
