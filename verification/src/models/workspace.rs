//! Workspaces and their digest settings.

use vstd::prelude::*;

verus! {

/// The digest settings of a workspace. `days` holds weekdays counted from
/// Sunday as 0; `time` is a wall-clock time written `HH:MM`; `last_sent_at`
/// is in milliseconds since the Unix epoch, UTC.
#[derive(Debug, Clone, PartialEq)]
pub struct NotificationConfig {
    pub discord_webhook_url: Option<String>,
    pub enabled: bool,
    pub days: Vec<u8>,
    pub time: String,
    pub last_sent_at: Option<i64>,
}

/// A workspace. `id` and `owner_id` are keys of persistence, in
/// hexadecimal; `created_at` is in milliseconds since the Unix epoch, UTC.
#[derive(Debug, Clone, PartialEq)]
pub struct Workspace {
    pub id: Option<String>,
    pub name: String,
    pub owner_id: String,
    pub room_code: String,
    pub notification_config: Option<NotificationConfig>,
    pub created_at: i64,
}

/// The body of a request to create a workspace.
#[derive(Debug, Clone, PartialEq)]
pub struct CreateWorkspaceRequest {
    pub name: String,
}

/// The body of a request to rename a workspace.
#[derive(Debug, Clone, PartialEq)]
pub struct UpdateWorkspaceRequest {
    pub name: String,
}

/// The body of a request to change the digest settings of a workspace.
#[derive(Debug, Clone, PartialEq)]
pub struct UpdateNotificationConfigRequest {
    pub discord_webhook_url: Option<String>,
    pub enabled: bool,
    pub days: Vec<u8>,
    pub time: String,
}

} // verus!
