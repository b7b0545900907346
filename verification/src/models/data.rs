//! Tasks, projects and assignees of a workspace, and the filter of a task
//! listing.

use vstd::prelude::*;

verus! {

/// The status of a task when nothing names one.
pub fn default_status() -> (status: String)
    ensures
        status@ == "todo"@,
{
    "todo".to_string()
}

/// The category of a task when nothing names one.
pub fn default_category() -> (category: String)
    ensures
        category@ == "อื่นๆ"@,
{
    "อื่นๆ".to_string()
}

/// The colour of an assignee when nothing names one.
pub fn default_color() -> (color: String)
    ensures
        color@ == "#6366F1"@,
{
    "#6366F1".to_string()
}

/// A task. `id` and `workspace_id` are keys of persistence, in hexadecimal.
#[derive(Debug, Clone, PartialEq)]
pub struct TaskDocument {
    pub id: Option<String>,
    pub workspace_id: String,
    pub title: String,
    pub project: String,
    pub duration_minutes: i64,
    pub date: String,
    pub end_date: Option<String>,
    pub status: String,
    pub category: String,
    pub notes: String,
    pub assignee_ids: Option<Vec<String>>,
    pub sprint_id: Option<String>,
    pub is_archived: bool,
    pub checklist: Option<serde_json::Value>,
    pub created_at: Option<String>,
    pub updated_at: Option<String>,
}

/// The body of a request to create a task.
#[derive(Debug, Clone, PartialEq)]
pub struct CreateTaskRequest {
    pub title: String,
    pub project: String,
    pub duration_minutes: i64,
    pub date: String,
    pub end_date: Option<String>,
    pub status: String,
    pub category: String,
    pub notes: String,
    pub assignee_ids: Option<Vec<String>>,
    pub sprint_id: Option<String>,
    pub is_archived: bool,
    pub checklist: Option<serde_json::Value>,
}

/// The body of a request to change a task. A field that is absent stays as
/// it is; a field that is present with no value is cleared.
#[derive(Debug, Clone, PartialEq)]
pub struct UpdateTaskRequest {
    pub title: Option<String>,
    pub project: Option<String>,
    pub duration_minutes: Option<i64>,
    pub date: Option<String>,
    pub end_date: Option<Option<String>>,
    pub status: Option<String>,
    pub category: Option<String>,
    pub notes: Option<String>,
    pub assignee_ids: Option<Option<Vec<String>>>,
    pub sprint_id: Option<Option<String>>,
    pub is_archived: Option<bool>,
    pub checklist: Option<Option<serde_json::Value>>,
}

/// A project. `id` and `workspace_id` are keys of persistence, in
/// hexadecimal.
#[derive(Debug, Clone, PartialEq)]
pub struct ProjectDocument {
    pub id: Option<String>,
    pub workspace_id: String,
    pub name: String,
    pub repo_url: Option<String>,
    pub created_at: Option<String>,
}

/// The body of a request to create a project.
#[derive(Debug, Clone, PartialEq)]
pub struct CreateProjectRequest {
    pub name: String,
    pub repo_url: Option<String>,
}

/// The body of a request to change a project.
#[derive(Debug, Clone, PartialEq)]
pub struct UpdateProjectRequest {
    pub name: Option<String>,
    pub repo_url: Option<Option<String>>,
}

/// An assignee. `id` and `workspace_id` are keys of persistence, in
/// hexadecimal; `user_id` names the account behind the assignee, if any.
#[derive(Debug, Clone, PartialEq)]
pub struct AssigneeDocument {
    pub id: Option<String>,
    pub workspace_id: String,
    pub name: String,
    pub color: String,
    pub discord_id: Option<String>,
    pub user_id: Option<String>,
    pub created_at: Option<String>,
}

/// The body of a request to create an assignee.
#[derive(Debug, Clone, PartialEq)]
pub struct CreateAssigneeRequest {
    pub name: String,
    pub color: String,
    pub discord_id: Option<String>,
    pub user_id: Option<String>,
}

/// The body of a request to change an assignee.
#[derive(Debug, Clone, PartialEq)]
pub struct UpdateAssigneeRequest {
    pub name: Option<String>,
    pub color: Option<String>,
    pub discord_id: Option<Option<String>>,
    pub user_id: Option<Option<String>>,
}

/// The filter of a task listing.
#[derive(Debug, Clone, PartialEq, Default)]
pub struct TaskFilterQuery {
    pub status: Option<String>,
    pub category: Option<String>,
    pub project: Option<String>,
    pub assignee_id: Option<String>,
    pub sprint_id: Option<String>,
    pub search: Option<String>,
    pub start_date: Option<String>,
    pub end_date: Option<String>,
    pub include_archived: Option<bool>,
}

} // verus!
