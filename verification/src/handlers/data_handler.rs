//! What a request on tasks, projects and assignees turns into: the record
//! to store for a creation, the fields to set for a change.

use crate::models::data::{
    AssigneeDocument, CreateAssigneeRequest, CreateProjectRequest, CreateTaskRequest,
    ProjectDocument, TaskDocument, UpdateAssigneeRequest, UpdateProjectRequest,
    UpdateTaskRequest,
};
use crate::text::texts;
use vstd::prelude::*;

verus! {

/// The value a field is set to.
#[derive(Debug, Clone, PartialEq)]
pub enum FieldValue {
    Text(String),
    Integer(i64),
    Flag(bool),
    TextList(Vec<String>),
    Json(serde_json::Value),
    Null,
}

/// What a `FieldValue` stands for.
pub enum FieldValueView {
    Text(Seq<char>),
    Integer(int),
    Flag(bool),
    TextList(Seq<Seq<char>>),
    Json(serde_json::Value),
    Null,
}

impl View for FieldValue {
    type V = FieldValueView;

    open spec fn view(&self) -> FieldValueView {
        match self {
            FieldValue::Text(text) => FieldValueView::Text(text@),
            FieldValue::Integer(n) => FieldValueView::Integer(*n as int),
            FieldValue::Flag(flag) => FieldValueView::Flag(*flag),
            FieldValue::TextList(list) => FieldValueView::TextList(texts(list@)),
            FieldValue::Json(value) => FieldValueView::Json(*value),
            FieldValue::Null => FieldValueView::Null,
        }
    }
}

/// One field to set, and the value to set it to.
#[derive(Debug, Clone, PartialEq)]
pub struct FieldUpdate {
    pub field: String,
    pub value: FieldValue,
}

/// What a `FieldUpdate` stands for.
pub struct FieldUpdateView {
    pub field: Seq<char>,
    pub value: FieldValueView,
}

impl View for FieldUpdate {
    type V = FieldUpdateView;

    open spec fn view(&self) -> FieldUpdateView {
        FieldUpdateView { field: self.field@, value: self.value@ }
    }
}

/// The views of a list of updates, in the same order.
pub open spec fn update_views(list: Seq<FieldUpdate>) -> Seq<FieldUpdateView> {
    list.map_values(|u: FieldUpdate| u@)
}

/// The update of `field`, if a value is given for it.
pub open spec fn update_of(
    field: Seq<char>,
    value: Option<FieldValueView>,
) -> Seq<FieldUpdateView> {
    match value {
        Some(v) => seq![FieldUpdateView { field, value: v }],
        None => Seq::empty(),
    }
}

/// The value of a text field that is given.
pub open spec fn given_text(value: Option<String>) -> Option<FieldValueView> {
    match value {
        Some(text) => Some(FieldValueView::Text(text@)),
        None => None,
    }
}

/// The value of a text field that is given or cleared.
pub open spec fn given_or_cleared_text(value: Option<Option<String>>) -> Option<FieldValueView> {
    match value {
        Some(Some(text)) => Some(FieldValueView::Text(text@)),
        Some(None) => Some(FieldValueView::Null),
        None => None,
    }
}

/// The value of the assignee list, where it is given or cleared.
pub open spec fn given_or_cleared_list(
    value: Option<Option<Vec<String>>>,
) -> Option<FieldValueView> {
    match value {
        Some(Some(list)) => Some(FieldValueView::TextList(texts(list@))),
        Some(None) => Some(FieldValueView::Null),
        None => None,
    }
}

/// The value of the checklist, where it is given or cleared.
pub open spec fn given_or_cleared_json(
    value: Option<Option<serde_json::Value>>,
) -> Option<FieldValueView> {
    match value {
        Some(Some(json)) => Some(FieldValueView::Json(json)),
        Some(None) => Some(FieldValueView::Null),
        None => None,
    }
}

/// The fields a change of a task sets: those the request names, in the
/// order of the request's fields. A field the request clears is set to
/// null.
pub open spec fn task_updates(payload: UpdateTaskRequest) -> Seq<FieldUpdateView> {
    update_of("title"@, given_text(payload.title)) + update_of(
        "project"@,
        given_text(payload.project),
    ) + update_of(
        "duration_minutes"@,
        match payload.duration_minutes {
            Some(n) => Some(FieldValueView::Integer(n as int)),
            None => None,
        },
    ) + update_of("date"@, given_text(payload.date)) + update_of(
        "end_date"@,
        given_or_cleared_text(payload.end_date),
    ) + update_of("status"@, given_text(payload.status)) + update_of(
        "category"@,
        given_text(payload.category),
    ) + update_of("notes"@, given_text(payload.notes)) + update_of(
        "assignee_ids"@,
        given_or_cleared_list(payload.assignee_ids),
    ) + update_of("sprint_id"@, given_or_cleared_text(payload.sprint_id)) + update_of(
        "is_archived"@,
        match payload.is_archived {
            Some(flag) => Some(FieldValueView::Flag(flag)),
            None => None,
        },
    ) + update_of("checklist"@, given_or_cleared_json(payload.checklist))
}

/// The fields a change of a project sets.
pub open spec fn project_updates(payload: UpdateProjectRequest) -> Seq<FieldUpdateView> {
    update_of("name"@, given_text(payload.name)) + update_of(
        "repo_url"@,
        given_or_cleared_text(payload.repo_url),
    )
}

/// The fields a change of an assignee sets.
pub open spec fn assignee_updates(payload: UpdateAssigneeRequest) -> Seq<FieldUpdateView> {
    update_of("name"@, given_text(payload.name)) + update_of("color"@, given_text(payload.color))
        + update_of("discord_id"@, given_or_cleared_text(payload.discord_id)) + update_of(
        "user_id"@,
        given_or_cleared_text(payload.user_id),
    )
}

fn set(updates: &mut Vec<FieldUpdate>, field: &str, value: Option<FieldValue>)
    ensures
        update_views(final(updates)@) == update_views(old(updates)@) + update_of(
            field@,
            match value {
                Some(v) => Some(v@),
                None => None,
            },
        ),
{
    match value {
        Some(v) => {
            updates.push(FieldUpdate { field: field.to_string(), value: v });
            assert(update_views(updates@) =~= update_views(old(updates)@) + update_of(
                field@,
                Some(v@),
            ));
        },
        None => {
            assert(update_views(updates@) =~= update_views(old(updates)@) + update_of(
                field@,
                None,
            ));
        },
    }
}

fn text_value(value: Option<String>) -> (v: Option<FieldValue>)
    ensures
        match v {
            Some(x) => Some(x@),
            None => None,
        } == given_text(value),
{
    match value {
        Some(text) => Some(FieldValue::Text(text)),
        None => None,
    }
}

fn text_or_null(value: Option<Option<String>>) -> (v: Option<FieldValue>)
    ensures
        match v {
            Some(x) => Some(x@),
            None => None,
        } == given_or_cleared_text(value),
{
    match value {
        Some(Some(text)) => Some(FieldValue::Text(text)),
        Some(None) => Some(FieldValue::Null),
        None => None,
    }
}

/// The fields a change of a task sets. Nothing is to be stored where the
/// list is empty.
pub fn update_task(payload: UpdateTaskRequest) -> (updates: Vec<FieldUpdate>)
    ensures
        update_views(updates@) == task_updates(payload),
{
    let mut updates: Vec<FieldUpdate> = Vec::new();
    assert(update_views(updates@) =~= Seq::empty());
    set(&mut updates, "title", text_value(payload.title));
    assert(update_views(updates@) =~= update_of("title"@, given_text(payload.title)));
    set(&mut updates, "project", text_value(payload.project));
    set(
        &mut updates,
        "duration_minutes",
        match payload.duration_minutes {
            Some(n) => Some(FieldValue::Integer(n)),
            None => None,
        },
    );
    set(&mut updates, "date", text_value(payload.date));
    set(&mut updates, "end_date", text_or_null(payload.end_date));
    set(&mut updates, "status", text_value(payload.status));
    set(&mut updates, "category", text_value(payload.category));
    set(&mut updates, "notes", text_value(payload.notes));
    set(
        &mut updates,
        "assignee_ids",
        match payload.assignee_ids {
            Some(Some(list)) => Some(FieldValue::TextList(list)),
            Some(None) => Some(FieldValue::Null),
            None => None,
        },
    );
    set(&mut updates, "sprint_id", text_or_null(payload.sprint_id));
    set(
        &mut updates,
        "is_archived",
        match payload.is_archived {
            Some(flag) => Some(FieldValue::Flag(flag)),
            None => None,
        },
    );
    set(
        &mut updates,
        "checklist",
        match payload.checklist {
            Some(Some(json)) => Some(FieldValue::Json(json)),
            Some(None) => Some(FieldValue::Null),
            None => None,
        },
    );
    updates
}

/// The fields a change of a project sets. Nothing is to be stored where the
/// list is empty.
pub fn update_project(payload: UpdateProjectRequest) -> (updates: Vec<FieldUpdate>)
    ensures
        update_views(updates@) == project_updates(payload),
{
    let mut updates: Vec<FieldUpdate> = Vec::new();
    assert(update_views(updates@) =~= Seq::empty());
    set(&mut updates, "name", text_value(payload.name));
    assert(update_views(updates@) =~= update_of("name"@, given_text(payload.name)));
    set(&mut updates, "repo_url", text_or_null(payload.repo_url));
    updates
}

/// The fields a change of an assignee sets. Nothing is to be stored where
/// the list is empty.
pub fn update_assignee(payload: UpdateAssigneeRequest) -> (updates: Vec<FieldUpdate>)
    ensures
        update_views(updates@) == assignee_updates(payload),
{
    let mut updates: Vec<FieldUpdate> = Vec::new();
    assert(update_views(updates@) =~= Seq::empty());
    set(&mut updates, "name", text_value(payload.name));
    assert(update_views(updates@) =~= update_of("name"@, given_text(payload.name)));
    set(&mut updates, "color", text_value(payload.color));
    set(&mut updates, "discord_id", text_or_null(payload.discord_id));
    set(&mut updates, "user_id", text_or_null(payload.user_id));
    updates
}

/// The task a request creates in the workspace `workspace_id`, as it is
/// before persistence has given it an id and its times.
pub fn create_task(workspace_id: &str, payload: CreateTaskRequest) -> (task: TaskDocument)
    ensures
        task.id is None,
        task.workspace_id@ == workspace_id@,
        task.title == payload.title,
        task.project == payload.project,
        task.duration_minutes == payload.duration_minutes,
        task.date == payload.date,
        task.end_date == payload.end_date,
        task.status == payload.status,
        task.category == payload.category,
        task.notes == payload.notes,
        task.assignee_ids == payload.assignee_ids,
        task.sprint_id == payload.sprint_id,
        task.is_archived == payload.is_archived,
        task.checklist == payload.checklist,
        task.created_at is None,
        task.updated_at is None,
{
    TaskDocument {
        id: None,
        workspace_id: workspace_id.to_string(),
        title: payload.title,
        project: payload.project,
        duration_minutes: payload.duration_minutes,
        date: payload.date,
        end_date: payload.end_date,
        status: payload.status,
        category: payload.category,
        notes: payload.notes,
        assignee_ids: payload.assignee_ids,
        sprint_id: payload.sprint_id,
        is_archived: payload.is_archived,
        checklist: payload.checklist,
        created_at: None,
        updated_at: None,
    }
}

/// The project a request creates in the workspace `workspace_id`, as it is
/// before persistence has given it an id and its time.
pub fn create_project(workspace_id: &str, payload: CreateProjectRequest) -> (project:
    ProjectDocument)
    ensures
        project.id is None,
        project.workspace_id@ == workspace_id@,
        project.name == payload.name,
        project.repo_url == payload.repo_url,
        project.created_at is None,
{
    ProjectDocument {
        id: None,
        workspace_id: workspace_id.to_string(),
        name: payload.name,
        repo_url: payload.repo_url,
        created_at: None,
    }
}

/// The assignee a request creates in the workspace `workspace_id`, as it is
/// before persistence has given it an id and its time.
pub fn create_assignee(workspace_id: &str, payload: CreateAssigneeRequest) -> (assignee:
    AssigneeDocument)
    ensures
        assignee.id is None,
        assignee.workspace_id@ == workspace_id@,
        assignee.name == payload.name,
        assignee.color == payload.color,
        assignee.discord_id == payload.discord_id,
        assignee.user_id == payload.user_id,
        assignee.created_at is None,
{
    AssigneeDocument {
        id: None,
        workspace_id: workspace_id.to_string(),
        name: payload.name,
        color: payload.color,
        discord_id: payload.discord_id,
        user_id: payload.user_id,
        created_at: None,
    }
}

} // verus!
