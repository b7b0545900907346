use sync_server::config::{
    default_db_name, default_jwt_secret, default_mongodb_uri, port, room_cleanup_enabled,
    room_idle_timeout_seconds, text_or, DEFAULT_PORT, DEFAULT_ROOM_IDLE_TIMEOUT_SECONDS,
};
use sync_server::handlers::auth_handler::{
    admin_gate, extract_token, invite_answer, invite_gate, token_cookie_name, token_expiry,
    AdminGate, InviteAnswer, InviteGate, TOKEN_LIFETIME_SECONDS,
};
use sync_server::handlers::data_handler::{
    create_assignee, create_project, create_task, update_assignee, update_project, update_task,
    FieldUpdate, FieldValue,
};
use sync_server::handlers::workspace_handler::{
    check_workspace_access, contains_text, merged_notification_config, verify_workspace_access,
    verify_workspace_owner, AccessError,
};
use sync_server::models::auth::Claims;
use sync_server::models::data::{
    default_category, default_color, default_status, CreateAssigneeRequest, CreateProjectRequest,
    CreateTaskRequest, TaskFilterQuery, UpdateAssigneeRequest, UpdateProjectRequest,
    UpdateTaskRequest,
};
use sync_server::models::room::Room;
use sync_server::models::user::{default_is_active, default_role};
use sync_server::models::workspace::{
    CreateWorkspaceRequest, NotificationConfig, UpdateNotificationConfigRequest, Workspace,
};
use sync_server::rate_limit::{IpHeaderKeyExtractor, ROOM_CREATION_BURST, ROOM_CREATION_PER_SECOND};
use sync_server::repositories::data_repo::{find_tasks, TaskQuery};
use sync_server::services::workspace_service::{WorkspaceCleanup, WorkspaceService};
use sync_server::state::RoomRegistry;

fn claims(role: &str) -> Claims {
    Claims { sub: "64b7f0000000000000000001".to_string(), role: role.to_string(), exp: 0 }
}

fn workspace(id: Option<&str>, owner: &str) -> Workspace {
    Workspace {
        id: id.map(|s| s.to_string()),
        name: "W".to_string(),
        owner_id: owner.to_string(),
        room_code: "code-of-w".to_string(),
        notification_config: None,
        created_at: 0,
    }
}

fn set(field: &str, value: FieldValue) -> FieldUpdate {
    FieldUpdate { field: field.to_string(), value }
}

fn text(value: &str) -> FieldValue {
    FieldValue::Text(value.to_string())
}

#[test]
fn defaults() {
    assert_eq!(default_status(), "todo");
    assert_eq!(default_category(), "อื่นๆ");
    assert_eq!(default_color(), "#6366F1");
    assert_eq!(default_role(), "user");
    assert!(!default_is_active());
}

#[test]
fn the_token_is_taken_from_the_header_or_else_the_cookie() {
    assert_eq!(extract_token(Some("Bearer abc.def"), None), Some("abc.def".to_string()));
    assert_eq!(extract_token(Some("Bearer abc"), Some("cookie")), Some("abc".to_string()));
    assert_eq!(extract_token(None, Some("cookie")), Some("cookie".to_string()));
    assert_eq!(extract_token(None, None), None);
    assert_eq!(extract_token(Some("Bearer "), None), Some(String::new()));
    // a header of another kind hides the cookie
    assert_eq!(extract_token(Some("Basic abc"), Some("cookie")), None);
    assert_eq!(extract_token(Some("bearer abc"), None), None);
    assert_eq!(extract_token(Some("Bearer"), None), None);
    assert_eq!(extract_token(Some(""), Some("cookie")), None);
    assert_eq!(extract_token(Some("Bearer ü-token"), None), Some("ü-token".to_string()));
    assert_eq!(token_cookie_name(), "_khun_ph_token");
}

#[test]
fn tokens_live_seven_days() {
    assert_eq!(TOKEN_LIFETIME_SECONDS, 7 * 24 * 3600);
    assert_eq!(token_expiry(0), Some(604_800));
    assert_eq!(token_expiry(1_700_000_000), Some(1_700_604_800));
    assert_eq!(token_expiry(-604_800), Some(0));
    assert_eq!(token_expiry(-604_801), None);
    assert_eq!(token_expiry(i64::MIN), None);
    if usize::BITS == 64 {
        assert_eq!(token_expiry(i64::MAX), Some(i64::MAX as usize + 604_800));
    }
}

#[test]
fn only_administrators_pass_the_admin_gate() {
    assert_eq!(admin_gate(None), AdminGate::Unauthorized);
    assert_eq!(admin_gate(Some(&claims("user"))), AdminGate::AdminRequired);
    assert_eq!(admin_gate(Some(&claims("Admin"))), AdminGate::AdminRequired);
    assert_eq!(admin_gate(Some(&claims(""))), AdminGate::AdminRequired);
    assert_eq!(admin_gate(Some(&claims("admin"))), AdminGate::Allowed);
    assert_eq!(AdminGate::Allowed.refusal_status(), None);
    assert_eq!(AdminGate::Unauthorized.refusal_status(), Some(401));
    assert_eq!(AdminGate::AdminRequired.refusal_status(), Some(403));
    assert_eq!(InviteGate::Allowed.refusal_status(), None);
    assert_eq!(InviteGate::Unauthorized.refusal_status(), Some(401));
    assert_eq!(InviteGate::SetupTokenRequired.refusal_status(), Some(403));
    assert_eq!(InviteGate::AdminRequired.refusal_status(), Some(403));
    assert_eq!(AccessError::NotFound.status(), 404);
    assert_eq!(AccessError::Forbidden.status(), 403);
}

#[test]
fn the_first_invitation_needs_the_setup_token() {
    let admin = claims("admin");
    assert_eq!(invite_gate(0, Some("s3cret"), Some("s3cret"), None), InviteGate::Allowed);
    assert_eq!(invite_gate(0, Some("s3cret"), Some("wrong"), None), InviteGate::SetupTokenRequired);
    assert_eq!(invite_gate(0, Some("s3cret"), None, None), InviteGate::SetupTokenRequired);
    assert_eq!(invite_gate(0, None, None, None), InviteGate::SetupTokenRequired);
    assert_eq!(invite_gate(0, None, Some("anything"), None), InviteGate::SetupTokenRequired);
    // an administrator's token does not stand in for the setup token
    assert_eq!(invite_gate(0, Some("s3cret"), None, Some(&admin)), InviteGate::SetupTokenRequired);
    assert_eq!(invite_gate(0, Some(""), Some(""), None), InviteGate::Allowed);
}

#[test]
fn later_invitations_need_an_administrator() {
    let admin = claims("admin");
    let user = claims("user");
    assert_eq!(invite_gate(1, None, None, Some(&admin)), InviteGate::Allowed);
    assert_eq!(invite_gate(1, None, None, Some(&user)), InviteGate::AdminRequired);
    assert_eq!(invite_gate(1, None, None, None), InviteGate::Unauthorized);
    // the setup token is worth nothing once an account exists
    assert_eq!(invite_gate(1, Some("s3cret"), Some("s3cret"), None), InviteGate::Unauthorized);
    assert_eq!(invite_gate(u64::MAX, Some("s"), Some("s"), Some(&user)), InviteGate::AdminRequired);
}

#[test]
fn what_the_inviter_is_told() {
    assert_eq!(invite_answer("ACTV"), InviteAnswer::Activated);
    assert_eq!(
        invite_answer("abc123"),
        InviteAnswer::SetupLink { link: "/setup-password?token=abc123".to_string() }
    );
    assert_eq!(
        invite_answer("actv"),
        InviteAnswer::SetupLink { link: "/setup-password?token=actv".to_string() }
    );
}

#[test]
fn owners_and_assignees_may_reach_a_workspace() {
    let w = workspace(Some("w1"), "owner");
    let none: Vec<String> = Vec::new();
    let assigned = vec!["w0".to_string(), "w1".to_string()];
    let elsewhere = vec!["w0".to_string(), "w2".to_string()];
    assert_eq!(check_workspace_access(Some(&w), "owner", &none), Some(true));
    assert_eq!(check_workspace_access(Some(&w), "guest", &assigned), Some(true));
    assert_eq!(check_workspace_access(Some(&w), "guest", &elsewhere), Some(false));
    assert_eq!(check_workspace_access(Some(&w), "guest", &none), Some(false));
    assert_eq!(check_workspace_access(None, "owner", &assigned), None);
    // a workspace that persistence has given no id cannot be assigned
    let unsaved = workspace(None, "owner");
    assert_eq!(check_workspace_access(Some(&unsaved), "guest", &assigned), Some(false));
    assert_eq!(check_workspace_access(Some(&unsaved), "owner", &none), Some(true));

    assert_eq!(verify_workspace_access(Some(&w), "owner", &none), Ok(()));
    assert_eq!(verify_workspace_access(Some(&w), "guest", &assigned), Ok(()));
    assert_eq!(verify_workspace_access(Some(&w), "guest", &elsewhere), Err(AccessError::Forbidden));
    assert_eq!(verify_workspace_access(None, "guest", &assigned), Err(AccessError::NotFound));

    assert_eq!(verify_workspace_owner(Some(&w), "owner"), Ok(()));
    assert_eq!(verify_workspace_owner(Some(&w), "guest"), Err(AccessError::Forbidden));
    assert_eq!(verify_workspace_owner(None, "owner"), Err(AccessError::NotFound));

    assert!(contains_text(&assigned, "w1"));
    assert!(!contains_text(&assigned, "w"));
    assert!(!contains_text(&none, ""));
}

#[test]
fn new_digest_settings_keep_the_time_of_the_last_digest() {
    let request = || UpdateNotificationConfigRequest {
        discord_webhook_url: Some("http://new".to_string()),
        enabled: true,
        days: vec![1, 5],
        time: "18:30".to_string(),
    };
    let existing = NotificationConfig {
        discord_webhook_url: None,
        enabled: false,
        days: vec![],
        time: "09:00".to_string(),
        last_sent_at: Some(123),
    };
    let merged = merged_notification_config(request(), Some(&existing));
    assert_eq!(
        merged,
        NotificationConfig {
            discord_webhook_url: Some("http://new".to_string()),
            enabled: true,
            days: vec![1, 5],
            time: "18:30".to_string(),
            last_sent_at: Some(123),
        }
    );
    assert_eq!(merged_notification_config(request(), None).last_sent_at, None);
}

#[test]
fn a_new_workspace_gets_a_room_code_of_its_own() {
    let made = WorkspaceService::create_workspace(
        "owner",
        CreateWorkspaceRequest { name: "Plans".to_string() },
        99,
    );
    assert_eq!(made.id, None);
    assert_eq!(made.name, "Plans");
    assert_eq!(made.owner_id, "owner");
    assert_eq!(made.created_at, 99);
    assert_eq!(made.notification_config, None);
    assert_eq!(made.room_code.len(), 36);
    assert_eq!(made.room_code.matches('-').count(), 4);
    let other = WorkspaceService::create_workspace(
        "owner",
        CreateWorkspaceRequest { name: "Plans".to_string() },
        99,
    );
    assert_ne!(made.room_code, other.room_code);
}

#[test]
fn deleting_a_workspace_takes_its_room_along() {
    let w = workspace(Some("w1"), "owner");
    assert_eq!(WorkspaceService::room_code_to_delete(Some(&w), "owner"), Some("code-of-w".to_string()));
    assert_eq!(WorkspaceService::room_code_to_delete(Some(&w), "guest"), None);
    assert_eq!(WorkspaceService::room_code_to_delete(None, "owner"), None);

    let mut registry = RoomRegistry::new();
    registry.insert_if_absent("code-of-w", Room::new("1".to_string(), "h".to_string(), None, 0));
    registry.insert_if_absent("other", Room::new("2".to_string(), "h".to_string(), None, 0));
    // persistence did not delete: everything stays
    assert_eq!(
        WorkspaceService::delete_workspace(&mut registry, "code-of-w", false),
        WorkspaceCleanup { delete_snapshot: false, delete_data: false, evicted: false }
    );
    assert!(registry.contains("code-of-w"));
    // persistence deleted: the live room goes, the rest is to be deleted
    assert_eq!(
        WorkspaceService::delete_workspace(&mut registry, "code-of-w", true),
        WorkspaceCleanup { delete_snapshot: true, delete_data: true, evicted: true }
    );
    assert!(!registry.contains("code-of-w"));
    assert!(registry.contains("other"));
    // no live room: the rest is still to be deleted
    assert_eq!(
        WorkspaceService::delete_workspace(&mut registry, "code-of-w", true),
        WorkspaceCleanup { delete_snapshot: true, delete_data: true, evicted: false }
    );
}

#[test]
fn the_rate_limit_key() {
    let extractor = IpHeaderKeyExtractor;
    assert_eq!(extractor.extract(Some("1.2.3.4"), None), "1.2.3.4");
    assert_eq!(extractor.extract(Some(" 1.2.3.4 , 5.6.7.8"), Some("9.9.9.9")), "1.2.3.4");
    assert_eq!(extractor.extract(Some("\t10.0.0.1\u{a0},x"), None), "10.0.0.1");
    assert_eq!(extractor.extract(Some("a b , c"), None), "a b");
    assert_eq!(extractor.extract(Some(",5.6.7.8"), Some("9.9.9.9")), "");
    assert_eq!(extractor.extract(Some(""), Some("9.9.9.9")), "");
    assert_eq!(extractor.extract(Some("   "), None), "");
    assert_eq!(extractor.extract(None, Some(" 9.9.9.9 ")), " 9.9.9.9 ");
    assert_eq!(extractor.extract(None, None), "unknown");
    assert_eq!(ROOM_CREATION_PER_SECOND, 2);
    assert_eq!(ROOM_CREATION_BURST, 5);
}

#[test]
fn settings_and_their_defaults() {
    assert_eq!(DEFAULT_ROOM_IDLE_TIMEOUT_SECONDS, 3600);
    assert_eq!(room_idle_timeout_seconds(None), 3600);
    assert_eq!(room_idle_timeout_seconds(Some("120")), 120);
    assert_eq!(room_idle_timeout_seconds(Some("0")), 0);
    assert_eq!(room_idle_timeout_seconds(Some("soon")), 3600);
    assert_eq!(room_idle_timeout_seconds(Some("-5")), 3600);
    assert_eq!(room_idle_timeout_seconds(Some("")), 3600);
    assert_eq!(room_idle_timeout_seconds(Some("18446744073709551615")), u64::MAX);
    assert_eq!(room_idle_timeout_seconds(Some("18446744073709551616")), 3600);
    assert!(room_cleanup_enabled(1));
    assert!(!room_cleanup_enabled(0));
    assert_eq!(DEFAULT_PORT, 3001);
    assert_eq!(port(None), 3001);
    assert_eq!(port(Some("8080")), 8080);
    assert_eq!(port(Some("65535")), 65535);
    assert_eq!(port(Some("65536")), 3001);
    assert_eq!(port(Some("http")), 3001);
    assert_eq!(text_or(None, "fallback"), "fallback");
    assert_eq!(text_or(Some("set".to_string()), "fallback"), "set");
    assert_eq!(default_mongodb_uri(), "mongodb://localhost:27017");
    assert_eq!(default_db_name(), "tracker-db");
    assert_eq!(default_jwt_secret(), "default_secret_keep_it_safe");
}

fn query(workspace_id: &str) -> TaskQuery {
    TaskQuery {
        workspace_id: workspace_id.to_string(),
        status: None,
        is_archived: None,
        category: None,
        project: None,
        assignee_id: None,
        sprint_id: None,
        title_pattern: None,
        date_from: None,
        date_to: None,
    }
}

#[test]
fn a_listing_leaves_archived_tasks_out_unless_asked() {
    let bare = TaskFilterQuery::default();
    assert_eq!(find_tasks("w", &bare), TaskQuery { is_archived: Some(false), ..query("w") });
    let with = TaskFilterQuery { include_archived: Some(true), ..TaskFilterQuery::default() };
    assert_eq!(find_tasks("w", &with), query("w"));
    let without = TaskFilterQuery { include_archived: Some(false), ..TaskFilterQuery::default() };
    assert_eq!(find_tasks("w", &without), TaskQuery { is_archived: Some(false), ..query("w") });
}

#[test]
fn the_status_of_a_listing() {
    let status = |s: &str, archived: Option<bool>| TaskFilterQuery {
        status: Some(s.to_string()),
        include_archived: archived,
        ..TaskFilterQuery::default()
    };
    assert_eq!(find_tasks("w", &status("all", None)), query("w"));
    assert_eq!(find_tasks("w", &status("all", Some(false))), query("w"));
    assert_eq!(
        find_tasks("w", &status("active", Some(true))),
        TaskQuery { is_archived: Some(false), ..query("w") }
    );
    assert_eq!(
        find_tasks("w", &status("archived", None)),
        TaskQuery { is_archived: Some(true), ..query("w") }
    );
    assert_eq!(
        find_tasks("w", &status("done", None)),
        TaskQuery { status: Some("done".to_string()), ..query("w") }
    );
    assert_eq!(
        find_tasks("w", &status("", None)),
        TaskQuery { status: Some(String::new()), ..query("w") }
    );
}

#[test]
fn the_other_conditions_of_a_listing() {
    let filter = TaskFilterQuery {
        status: Some("todo".to_string()),
        category: Some("bug".to_string()),
        project: Some("all".to_string()),
        assignee_id: Some("u1".to_string()),
        sprint_id: Some("s1".to_string()),
        search: Some("fix".to_string()),
        start_date: Some("2024-01-01".to_string()),
        end_date: Some("2024-01-31".to_string()),
        include_archived: None,
    };
    assert_eq!(
        find_tasks("w9", &filter),
        TaskQuery {
            workspace_id: "w9".to_string(),
            status: Some("todo".to_string()),
            is_archived: None,
            category: Some("bug".to_string()),
            project: None,
            assignee_id: Some("u1".to_string()),
            sprint_id: Some("s1".to_string()),
            title_pattern: Some("fix".to_string()),
            date_from: Some("2024-01-01".to_string()),
            date_to: Some("2024-01-31".to_string()),
        }
    );
    let open = TaskFilterQuery {
        category: Some("all".to_string()),
        assignee_id: Some("all".to_string()),
        sprint_id: Some("all".to_string()),
        search: Some(String::new()),
        end_date: Some("2024-01-31".to_string()),
        include_archived: Some(true),
        ..TaskFilterQuery::default()
    };
    assert_eq!(
        find_tasks("w", &open),
        TaskQuery { date_to: Some("2024-01-31".to_string()), ..query("w") }
    );
}

fn no_task_change() -> UpdateTaskRequest {
    UpdateTaskRequest {
        title: None,
        project: None,
        duration_minutes: None,
        date: None,
        end_date: None,
        status: None,
        category: None,
        notes: None,
        assignee_ids: None,
        sprint_id: None,
        is_archived: None,
        checklist: None,
    }
}

#[test]
fn a_change_sets_the_fields_it_names() {
    assert!(update_task(no_task_change()).is_empty());
    let some = UpdateTaskRequest {
        title: Some("T".to_string()),
        status: Some("done".to_string()),
        end_date: Some(None),
        sprint_id: Some(Some("s".to_string())),
        ..no_task_change()
    };
    assert_eq!(
        update_task(some),
        vec![
            set("title", text("T")),
            set("end_date", FieldValue::Null),
            set("status", text("done")),
            set("sprint_id", text("s")),
        ]
    );
    let checklist = serde_json::Value::Bool(true);
    let all = UpdateTaskRequest {
        title: Some("T".to_string()),
        project: Some("P".to_string()),
        duration_minutes: Some(-5),
        date: Some("D".to_string()),
        end_date: Some(Some("E".to_string())),
        status: Some("S".to_string()),
        category: Some("C".to_string()),
        notes: Some("N".to_string()),
        assignee_ids: Some(Some(vec!["a".to_string(), "b".to_string()])),
        sprint_id: Some(None),
        is_archived: Some(true),
        checklist: Some(Some(checklist.clone())),
    };
    assert_eq!(
        update_task(all),
        vec![
            set("title", text("T")),
            set("project", text("P")),
            set("duration_minutes", FieldValue::Integer(-5)),
            set("date", text("D")),
            set("end_date", text("E")),
            set("status", text("S")),
            set("category", text("C")),
            set("notes", text("N")),
            set("assignee_ids", FieldValue::TextList(vec!["a".to_string(), "b".to_string()])),
            set("sprint_id", FieldValue::Null),
            set("is_archived", FieldValue::Flag(true)),
            set("checklist", FieldValue::Json(checklist)),
        ]
    );
    let cleared = UpdateTaskRequest {
        assignee_ids: Some(None),
        checklist: Some(None),
        ..no_task_change()
    };
    assert_eq!(
        update_task(cleared),
        vec![set("assignee_ids", FieldValue::Null), set("checklist", FieldValue::Null)]
    );
}

#[test]
fn changes_of_projects_and_assignees() {
    assert!(update_project(UpdateProjectRequest { name: None, repo_url: None }).is_empty());
    assert_eq!(
        update_project(UpdateProjectRequest { name: Some("n".to_string()), repo_url: Some(None) }),
        vec![set("name", text("n")), set("repo_url", FieldValue::Null)]
    );
    assert_eq!(
        update_project(UpdateProjectRequest { name: None, repo_url: Some(Some("u".to_string())) }),
        vec![set("repo_url", text("u"))]
    );
    assert!(update_assignee(UpdateAssigneeRequest {
        name: None,
        color: None,
        discord_id: None,
        user_id: None
    })
    .is_empty());
    assert_eq!(
        update_assignee(UpdateAssigneeRequest {
            name: Some("n".to_string()),
            color: Some("#fff".to_string()),
            discord_id: Some(None),
            user_id: Some(Some("u".to_string())),
        }),
        vec![
            set("name", text("n")),
            set("color", text("#fff")),
            set("discord_id", FieldValue::Null),
            set("user_id", text("u")),
        ]
    );
}

#[test]
fn what_a_creation_stores() {
    let task = create_task(
        "w1",
        CreateTaskRequest {
            title: "T".to_string(),
            project: "P".to_string(),
            duration_minutes: 30,
            date: "2024-01-01".to_string(),
            end_date: Some("2024-01-02".to_string()),
            status: "todo".to_string(),
            category: "c".to_string(),
            notes: "n".to_string(),
            assignee_ids: Some(vec!["a".to_string()]),
            sprint_id: Some("s".to_string()),
            is_archived: true,
            checklist: Some(serde_json::Value::Null),
        },
    );
    assert_eq!(task.id, None);
    assert_eq!(task.workspace_id, "w1");
    assert_eq!(task.title, "T");
    assert_eq!(task.project, "P");
    assert_eq!(task.duration_minutes, 30);
    assert_eq!(task.date, "2024-01-01");
    assert_eq!(task.end_date.as_deref(), Some("2024-01-02"));
    assert_eq!(task.status, "todo");
    assert_eq!(task.category, "c");
    assert_eq!(task.notes, "n");
    assert_eq!(task.assignee_ids, Some(vec!["a".to_string()]));
    assert_eq!(task.sprint_id.as_deref(), Some("s"));
    assert!(task.is_archived);
    assert_eq!(task.checklist, Some(serde_json::Value::Null));
    assert_eq!(task.created_at, None);
    assert_eq!(task.updated_at, None);

    let project = create_project(
        "w1",
        CreateProjectRequest { name: "P".to_string(), repo_url: Some("git".to_string()) },
    );
    assert_eq!(project.id, None);
    assert_eq!(project.workspace_id, "w1");
    assert_eq!(project.name, "P");
    assert_eq!(project.repo_url.as_deref(), Some("git"));
    assert_eq!(project.created_at, None);

    let assignee = create_assignee(
        "w1",
        CreateAssigneeRequest {
            name: "A".to_string(),
            color: "#000".to_string(),
            discord_id: None,
            user_id: Some("u".to_string()),
        },
    );
    assert_eq!(assignee.id, None);
    assert_eq!(assignee.workspace_id, "w1");
    assert_eq!(assignee.name, "A");
    assert_eq!(assignee.color, "#000");
    assert_eq!(assignee.discord_id, None);
    assert_eq!(assignee.user_id.as_deref(), Some("u"));
    assert_eq!(assignee.created_at, None);
}
