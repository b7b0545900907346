//! The rules of workspaces: how one is born, and what goes with one when it
//! is deleted.

use crate::models::workspace::{CreateWorkspaceRequest, Workspace};
use crate::services::room_service::{is_hyphenated_uuid, random_uuid};
use crate::state::{RoomMap, RoomRegistry};
use crate::text::{opt_text, str_eq};
use vstd::prelude::*;

verus! {

/// The rules of workspaces.
pub struct WorkspaceService;

/// What goes with a workspace once it has been deleted.
#[derive(Debug, Clone, Copy, PartialEq, Eq)]
pub struct WorkspaceCleanup {
    /// Whether the snapshot saved under the workspace's room code is to be
    /// deleted.
    pub delete_snapshot: bool,
    /// Whether the tasks, projects, assignees and sprints of the workspace
    /// are to be deleted.
    pub delete_data: bool,
    /// Whether a live room was evicted.
    pub evicted: bool,
}

impl WorkspaceService {
    /// A new workspace of `owner_id`, bound to a room code of its own, as it
    /// is before persistence has given it an id.
    pub fn create_workspace(owner_id: &str, payload: CreateWorkspaceRequest, now: i64) -> (workspace:
        Workspace)
        ensures
            workspace.id is None,
            workspace.name@ == payload.name@,
            workspace.owner_id@ == owner_id@,
            is_hyphenated_uuid(workspace.room_code@),
            workspace.notification_config is None,
            workspace.created_at == now,
    {
        Workspace {
            id: None,
            name: payload.name,
            owner_id: owner_id.to_string(),
            room_code: random_uuid(),
            notification_config: None,
            created_at: now,
        }
    }

    /// The room code of the workspace that `owner_id` asks to delete: that
    /// of `workspace` if there is a workspace and `owner_id` owns it; none
    /// otherwise, and then nothing is to be deleted.
    pub fn room_code_to_delete(workspace: Option<&Workspace>, owner_id: &str) -> (room_code: Option<
        String,
    >)
        ensures
            opt_text(room_code) == match workspace {
                Some(w) => if w.owner_id@ == owner_id@ {
                    Some(w.room_code@)
                } else {
                    None
                },
                None => None,
            },
    {
        match workspace {
            Some(w) => if str_eq(w.owner_id.as_str(), owner_id) {
                Some(w.room_code.clone())
            } else {
                None
            },
            None => None,
        }
    }

    /// Finishes the deletion of the workspace bound to `room_code`.
    /// `deleted` says whether persistence has deleted the workspace. If it
    /// has, the live room under the code is evicted, and the saved snapshot
    /// and the data of the workspace are to be deleted too; if it has not,
    /// everything stays.
    pub fn delete_workspace(registry: &mut RoomRegistry, room_code: &str, deleted: bool) -> (cleanup:
        WorkspaceCleanup)
        requires
            old(registry).wf(),
        ensures
            final(registry).wf(),
            final(registry)@ == if deleted {
                old(registry)@.remove(room_code@)
            } else {
                old(registry)@
            },
            cleanup.delete_snapshot == deleted,
            cleanup.delete_data == deleted,
            cleanup.evicted == (deleted && old(registry)@.contains_key(room_code@)),
    {
        if deleted {
            let evicted = registry.remove(room_code);
            WorkspaceCleanup { delete_snapshot: true, delete_data: true, evicted }
        } else {
            WorkspaceCleanup { delete_snapshot: false, delete_data: false, evicted: false }
        }
    }
}

/// No room stays live under the room code of a deleted workspace.
pub proof fn lemma_deleted_workspace_has_no_room(rooms: RoomMap, room_code: Seq<char>)
    ensures
        !rooms.remove(room_code).contains_key(room_code),
{
}

} // verus!
