//! The query behind a task listing.

use crate::models::data::TaskFilterQuery;
use crate::text::{clone_opt_text, opt_text, str_eq};
use vstd::prelude::*;

verus! {

/// The conditions a task must meet to be listed. A condition that is absent
/// admits every task.
#[derive(Debug, Clone, PartialEq)]
pub struct TaskQuery {
    /// The workspace the task belongs to.
    pub workspace_id: String,
    /// The status the task has.
    pub status: Option<String>,
    /// Whether the task is archived.
    pub is_archived: Option<bool>,
    /// The category the task has.
    pub category: Option<String>,
    /// The project the task belongs to.
    pub project: Option<String>,
    /// An assignee the task has.
    pub assignee_id: Option<String>,
    /// The sprint the task belongs to.
    pub sprint_id: Option<String>,
    /// A pattern the title matches, letter case set aside.
    pub title_pattern: Option<String>,
    /// The earliest date of the task.
    pub date_from: Option<String>,
    /// The latest date of the task.
    pub date_to: Option<String>,
}

/// What a `TaskQuery` stands for.
pub struct TaskQueryView {
    pub workspace_id: Seq<char>,
    pub status: Option<Seq<char>>,
    pub is_archived: Option<bool>,
    pub category: Option<Seq<char>>,
    pub project: Option<Seq<char>>,
    pub assignee_id: Option<Seq<char>>,
    pub sprint_id: Option<Seq<char>>,
    pub title_pattern: Option<Seq<char>>,
    pub date_from: Option<Seq<char>>,
    pub date_to: Option<Seq<char>>,
}

impl View for TaskQuery {
    type V = TaskQueryView;

    open spec fn view(&self) -> TaskQueryView {
        TaskQueryView {
            workspace_id: self.workspace_id@,
            status: opt_text(self.status),
            is_archived: self.is_archived,
            category: opt_text(self.category),
            project: opt_text(self.project),
            assignee_id: opt_text(self.assignee_id),
            sprint_id: opt_text(self.sprint_id),
            title_pattern: opt_text(self.title_pattern),
            date_from: opt_text(self.date_from),
            date_to: opt_text(self.date_to),
        }
    }
}

/// The condition a filter value stands for: none where the value is absent
/// or the word `all`.
pub open spec fn unless_all(value: Option<Seq<char>>) -> Option<Seq<char>> {
    match value {
        Some(v) => if v == "all"@ {
            None
        } else {
            Some(v)
        },
        None => None,
    }
}

/// The status a filter asks for: the words `all`, `active` and `archived`
/// name no status.
pub open spec fn status_condition(status: Option<Seq<char>>) -> Option<Seq<char>> {
    match status {
        Some(s) => if s == "all"@ || s == "active"@ || s == "archived"@ {
            None
        } else {
            Some(s)
        },
        None => None,
    }
}

/// What a filter asks of the archive flag: `active` asks for tasks that are
/// not archived, `archived` for tasks that are; any other status asks
/// nothing; without a status, archived tasks are left out unless the filter
/// includes them.
pub open spec fn archive_condition(
    status: Option<Seq<char>>,
    include_archived: Option<bool>,
) -> Option<bool> {
    match status {
        Some(s) => if s == "active"@ {
            Some(false)
        } else if s == "archived"@ {
            Some(true)
        } else {
            None
        },
        None => if include_archived == Some(true) {
            None
        } else {
            Some(false)
        },
    }
}

/// The pattern a search stands for: none where the search is absent or
/// empty.
pub open spec fn search_condition(search: Option<Seq<char>>) -> Option<Seq<char>> {
    match search {
        Some(s) => if s.len() == 0 {
            None
        } else {
            Some(s)
        },
        None => None,
    }
}

/// The query behind a listing of the tasks of `workspace_id` under
/// `filter`.
pub open spec fn task_query_for(workspace_id: Seq<char>, filter: TaskFilterQuery) -> TaskQueryView {
    TaskQueryView {
        workspace_id,
        status: status_condition(opt_text(filter.status)),
        is_archived: archive_condition(opt_text(filter.status), filter.include_archived),
        category: unless_all(opt_text(filter.category)),
        project: unless_all(opt_text(filter.project)),
        assignee_id: unless_all(opt_text(filter.assignee_id)),
        sprint_id: unless_all(opt_text(filter.sprint_id)),
        title_pattern: search_condition(opt_text(filter.search)),
        date_from: opt_text(filter.start_date),
        date_to: opt_text(filter.end_date),
    }
}

fn condition_unless_all(value: &Option<String>) -> (condition: Option<String>)
    ensures
        opt_text(condition) == unless_all(opt_text(*value)),
{
    match value {
        Some(v) => if str_eq(v.as_str(), "all") {
            None
        } else {
            Some(v.clone())
        },
        None => None,
    }
}

fn status_of(status: &Option<String>) -> (condition: Option<String>)
    ensures
        opt_text(condition) == status_condition(opt_text(*status)),
{
    match status {
        Some(s) => if str_eq(s.as_str(), "all") || str_eq(s.as_str(), "active") || str_eq(
            s.as_str(),
            "archived",
        ) {
            None
        } else {
            Some(s.clone())
        },
        None => None,
    }
}

fn archive_flag_of(status: &Option<String>, include_archived: Option<bool>) -> (condition: Option<
    bool,
>)
    ensures
        condition == archive_condition(opt_text(*status), include_archived),
{
    match status {
        Some(s) => if str_eq(s.as_str(), "active") {
            Some(false)
        } else if str_eq(s.as_str(), "archived") {
            Some(true)
        } else {
            None
        },
        None => match include_archived {
            Some(true) => None,
            _ => Some(false),
        },
    }
}

fn pattern_of(search: &Option<String>) -> (condition: Option<String>)
    ensures
        opt_text(condition) == search_condition(opt_text(*search)),
{
    match search {
        Some(s) => if s.as_str().unicode_len() == 0 {
            None
        } else {
            Some(s.clone())
        },
        None => None,
    }
}

/// The query behind a listing of the tasks of `workspace_id` under
/// `filter`.
pub fn find_tasks(workspace_id: &str, filter: &TaskFilterQuery) -> (query: TaskQuery)
    ensures
        query@ == task_query_for(workspace_id@, *filter),
{
    TaskQuery {
        workspace_id: workspace_id.to_string(),
        status: status_of(&filter.status),
        is_archived: archive_flag_of(&filter.status, filter.include_archived),
        category: condition_unless_all(&filter.category),
        project: condition_unless_all(&filter.project),
        assignee_id: condition_unless_all(&filter.assignee_id),
        sprint_id: condition_unless_all(&filter.sprint_id),
        title_pattern: pattern_of(&filter.search),
        date_from: clone_opt_text(&filter.start_date),
        date_to: clone_opt_text(&filter.end_date),
    }
}

} // verus!
