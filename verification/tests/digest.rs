use chrono::{Datelike, Timelike};
use sync_server::models::data::{TaskDocument, TaskFilterQuery};
use sync_server::models::workspace::{NotificationConfig, Workspace};
use sync_server::services::notification_service::{
    check_and_send_notifications, clock_time_text, compose_daily_summary, digest_task_filter,
    is_digest_due, mark_digest_sent, plan_daily_summary, send_daily_summary_to_discord,
    wall_clock, WallClock, DIGEST_INTERVAL_SECONDS, DIGEST_QUIET_MINUTES, DIGEST_SECTION_CAP,
    DIGEST_UTC_OFFSET_SECONDS,
};

// Monday 2024-01-01 09:00 in the digest zone, which is 02:00 UTC
const MONDAY_NINE: i64 = 1_704_074_400_000;
const MINUTE: i64 = 60_000;

fn task(status: &str, title: &str) -> TaskDocument {
    TaskDocument {
        id: None,
        workspace_id: "w".to_string(),
        title: title.to_string(),
        project: String::new(),
        duration_minutes: 0,
        date: "2024-01-01".to_string(),
        end_date: None,
        status: status.to_string(),
        category: "misc".to_string(),
        notes: String::new(),
        assignee_ids: None,
        sprint_id: None,
        is_archived: false,
        checklist: None,
        created_at: None,
        updated_at: None,
    }
}

fn config(days: Vec<u8>, time: &str, last_sent_at: Option<i64>) -> NotificationConfig {
    NotificationConfig {
        discord_webhook_url: Some("http://x".to_string()),
        enabled: true,
        days,
        time: time.to_string(),
        last_sent_at,
    }
}

fn workspace(id: Option<&str>, config: Option<NotificationConfig>) -> Workspace {
    Workspace {
        id: id.map(|s| s.to_string()),
        name: "W".to_string(),
        owner_id: "o".to_string(),
        room_code: "c".to_string(),
        notification_config: config,
        created_at: 0,
    }
}

#[test]
fn the_digest_zone_is_seven_hours_east() {
    assert_eq!(DIGEST_UTC_OFFSET_SECONDS, 7 * 3600);
    assert_eq!(DIGEST_QUIET_MINUTES, 55);
    assert_eq!(DIGEST_SECTION_CAP, 15);
    assert_eq!(DIGEST_INTERVAL_SECONDS, 60);
}

#[test]
fn the_wall_clock_at_known_instants() {
    assert_eq!(wall_clock(0, 0), WallClock { weekday: 4, hour: 0, minute: 0 });
    assert_eq!(wall_clock(0, 25_200), WallClock { weekday: 4, hour: 7, minute: 0 });
    assert_eq!(wall_clock(MONDAY_NINE, 25_200), WallClock { weekday: 1, hour: 9, minute: 0 });
    assert_eq!(wall_clock(MONDAY_NINE, 0), WallClock { weekday: 1, hour: 2, minute: 0 });
    assert_eq!(wall_clock(MONDAY_NINE + 59_999, 25_200), WallClock { weekday: 1, hour: 9, minute: 0 });
    assert_eq!(wall_clock(MONDAY_NINE - 1, 25_200), WallClock { weekday: 1, hour: 8, minute: 59 });
    // the last millisecond of 1969 was on a Wednesday
    assert_eq!(wall_clock(-1, 0), WallClock { weekday: 3, hour: 23, minute: 59 });
    // the zone decides the day
    assert_eq!(wall_clock(MONDAY_NINE - 3 * 3_600_000, 0), WallClock { weekday: 0, hour: 23, minute: 0 });
    assert_eq!(wall_clock(MONDAY_NINE - 3 * 3_600_000, 25_200), WallClock { weekday: 1, hour: 6, minute: 0 });
}

#[test]
fn the_wall_clock_agrees_with_the_calendar() {
    let offsets = [0, 25_200, -18_000, 19_800, 86_399, -86_399];
    let mut instant: i64 = -5_000_000_000_000;
    while instant < 5_000_000_000_000 {
        for offset in offsets {
            let zone = chrono::FixedOffset::east_opt(offset).unwrap();
            let at = chrono::DateTime::from_timestamp_millis(instant).unwrap().with_timezone(&zone);
            let clock = wall_clock(instant, offset);
            assert_eq!(clock.weekday as u32, at.weekday().num_days_from_sunday(), "at {}", instant);
            assert_eq!(clock.hour as u32, at.hour(), "at {}", instant);
            assert_eq!(clock.minute as u32, at.minute(), "at {}", instant);
        }
        instant += 98_765_432_101;
    }
    let extreme = wall_clock(i64::MAX, i32::MAX);
    assert!(extreme.weekday < 7 && extreme.hour < 24 && extreme.minute < 60);
    let extreme = wall_clock(i64::MIN, i32::MIN);
    assert!(extreme.weekday < 7 && extreme.hour < 24 && extreme.minute < 60);
}

#[test]
fn times_are_written_with_two_digits() {
    assert_eq!(clock_time_text(9, 0), "09:00");
    assert_eq!(clock_time_text(0, 5), "00:05");
    assert_eq!(clock_time_text(23, 59), "23:59");
    assert_eq!(clock_time_text(10, 30), "10:30");
}

#[test]
fn a_digest_is_due_on_its_day_at_its_minute() {
    let c = config(vec![1], "09:00", None);
    assert!(is_digest_due(&c, 1, "09:00", MONDAY_NINE));
    assert!(!is_digest_due(&c, 2, "09:00", MONDAY_NINE));
    assert!(!is_digest_due(&c, 1, "09:01", MONDAY_NINE));
    assert!(!is_digest_due(&c, 1, "9:00", MONDAY_NINE));
    let off = NotificationConfig { enabled: false, ..config(vec![1], "09:00", None) };
    assert!(!is_digest_due(&off, 1, "09:00", MONDAY_NINE));
    let no_days = config(vec![], "09:00", None);
    assert!(!is_digest_due(&no_days, 1, "09:00", MONDAY_NINE));
    let many_days = config(vec![0, 3, 6], "09:00", None);
    assert!(is_digest_due(&many_days, 6, "09:00", MONDAY_NINE));
    assert!(is_digest_due(&many_days, 0, "09:00", MONDAY_NINE));
    assert!(!is_digest_due(&many_days, 1, "09:00", MONDAY_NINE));
}

#[test]
fn a_digest_is_not_sent_twice_within_the_quiet_time() {
    let sent = |ago: i64| config(vec![1], "09:00", Some(MONDAY_NINE - ago));
    assert!(!is_digest_due(&sent(0), 1, "09:00", MONDAY_NINE));
    assert!(!is_digest_due(&sent(54 * MINUTE), 1, "09:00", MONDAY_NINE));
    assert!(!is_digest_due(&sent(55 * MINUTE - 1), 1, "09:00", MONDAY_NINE));
    assert!(is_digest_due(&sent(55 * MINUTE), 1, "09:00", MONDAY_NINE));
    assert!(is_digest_due(&sent(7 * 24 * 60 * MINUTE), 1, "09:00", MONDAY_NINE));
    // a record from the future holds the digest back
    assert!(!is_digest_due(&sent(-10 * MINUTE), 1, "09:00", MONDAY_NINE));
    assert!(!is_digest_due(&sent(-100 * MINUTE), 1, "09:00", MONDAY_NINE));
    let far = config(vec![1], "09:00", Some(i64::MIN));
    assert!(is_digest_due(&far, 1, "09:00", i64::MAX));
}

#[test]
fn sending_is_recorded_and_holds_the_next_digest_back() {
    let mut c = config(vec![1], "09:00", None);
    assert!(is_digest_due(&c, 1, "09:00", MONDAY_NINE));
    mark_digest_sent(&mut c, MONDAY_NINE);
    assert_eq!(c.last_sent_at, Some(MONDAY_NINE));
    assert_eq!(c.time, "09:00");
    assert_eq!(c.days, vec![1]);
    assert!(c.enabled);
    // an overlapping tick within the same minute
    assert!(!is_digest_due(&c, 1, "09:00", MONDAY_NINE + 30_000));
    // a week later it is due again
    assert!(is_digest_due(&c, 1, "09:00", MONDAY_NINE + 7 * 24 * 60 * MINUTE));
}

#[test]
fn the_due_workspaces_of_a_tick() {
    let workspaces = vec![
        workspace(Some("a"), Some(config(vec![1], "09:00", None))),
        workspace(Some("b"), Some(config(vec![2], "09:00", None))),
        workspace(Some("c"), None),
        workspace(None, Some(config(vec![1], "09:00", None))),
        workspace(Some("e"), Some(config(vec![1], "09:00", Some(MONDAY_NINE - MINUTE)))),
        workspace(Some("f"), Some(config(vec![0, 1], "09:00", Some(MONDAY_NINE - 60 * MINUTE)))),
    ];
    assert_eq!(check_and_send_notifications(&workspaces, MONDAY_NINE), vec![0, 5]);
    assert_eq!(check_and_send_notifications(&workspaces, MONDAY_NINE + 59_999), vec![0, 5]);
    assert!(check_and_send_notifications(&workspaces, MONDAY_NINE + MINUTE).is_empty());
    // Tuesday at nine
    assert_eq!(check_and_send_notifications(&workspaces, MONDAY_NINE + 24 * 60 * MINUTE), vec![1]);
    assert!(check_and_send_notifications(&Vec::new(), MONDAY_NINE).is_empty());
}

#[test]
fn a_digest_with_one_completed_and_one_pending_task() {
    let tasks = vec![task("done", "A"), task("todo", "B")];
    let post = send_daily_summary_to_discord("W", Some("http://x"), &tasks, MONDAY_NINE)
        .expect("a digest is to be posted");
    assert_eq!(post.url, "http://x");
    assert!(post.description.contains("Completed Today (1)"));
    assert!(post.description.contains("Pending Tasks (1)"));
    assert_eq!(
        post.description,
        "📊 **Daily Summary: W** - 2024-01-01\n\n🎯 **Completed Today (1)**\n• ✅ A\n\n⏳ **Pending Tasks (1)**\n• 📝 B\n"
    );
    assert_eq!(post.title, "Report for W");
    assert_eq!(post.username, "Khun Phaen Reporter");
    assert_eq!(post.color, 0x4F46E5);
    assert_eq!(post.footer, "Khun Phaen Task Tracker ✨");
    assert_eq!(
        post.avatar_url,
        "https://raw.githubusercontent.com/watchakorn-18k/khu-phaen-tracker-offline/main/static/logo.png"
    );
}

#[test]
fn the_digest_is_dated_in_its_zone() {
    let tasks = vec![task("todo", "t")];
    // 2024-01-01 18:00 UTC is already the second of January seven hours east
    let evening = MONDAY_NINE + 16 * 60 * MINUTE;
    let post = send_daily_summary_to_discord("W", Some("u"), &tasks, evening).unwrap();
    assert!(post.description.starts_with("📊 **Daily Summary: W** - 2024-01-02\n\n"));
    let post = send_daily_summary_to_discord("W", Some("u"), &tasks, 0).unwrap();
    assert!(post.description.starts_with("📊 **Daily Summary: W** - 1970-01-01\n\n"));
    // an instant beyond the calendar has no date, so nothing is posted
    assert_eq!(send_daily_summary_to_discord("W", Some("u"), &tasks, i64::MAX), None);
}

#[test]
fn nothing_is_posted_without_a_webhook_or_without_tasks() {
    let tasks = vec![task("done", "A")];
    assert_eq!(send_daily_summary_to_discord("W", None, &tasks, MONDAY_NINE), None);
    assert_eq!(send_daily_summary_to_discord("W", Some("http://x"), &Vec::new(), MONDAY_NINE), None);
    assert_eq!(plan_daily_summary("W", None, &tasks, Some("2024-01-01")), None);
    assert_eq!(plan_daily_summary("W", Some("http://x"), &Vec::new(), Some("2024-01-01")), None);
    assert_eq!(plan_daily_summary("W", Some("http://x"), &tasks, None), None);
    assert!(plan_daily_summary("W", Some("http://x"), &tasks, Some("2024-01-01")).is_some());
}

#[test]
fn pending_tasks_carry_the_icon_of_their_status() {
    let tasks = vec![
        task("in-progress", "one"),
        task("in-test", "two"),
        task("todo", "three"),
        task("blocked", "four"),
        task("Done", "five"),
    ];
    assert_eq!(
        compose_daily_summary("Team", "2024-02-03", &tasks),
        "📊 **Daily Summary: Team** - 2024-02-03\n\n⏳ **Pending Tasks (5)**\n• 🔄 one\n• 🧪 two\n• 📝 three\n• 📝 four\n• 📝 five\n"
    );
}

#[test]
fn only_completed_tasks() {
    let tasks = vec![task("done", "x"), task("done", "y")];
    assert_eq!(
        compose_daily_summary("Team", "2024-02-03", &tasks),
        "📊 **Daily Summary: Team** - 2024-02-03\n\n🎯 **Completed Today (2)**\n• ✅ x\n• ✅ y\n\n"
    );
}

#[test]
fn no_task_at_all() {
    assert_eq!(
        compose_daily_summary("Team", "2024-02-03", &Vec::new()),
        "📊 **Daily Summary: Team** - 2024-02-03\n\n"
    );
}

#[test]
fn a_section_lists_fifteen_tasks_and_counts_the_rest() {
    let fifteen: Vec<TaskDocument> = (1..=15).map(|n| task("done", &format!("t{}", n))).collect();
    let text = compose_daily_summary("W", "d", &fifteen);
    assert!(text.contains("Completed Today (15)"));
    assert!(text.contains("• ✅ t15\n"));
    assert!(!text.contains("more"));

    let sixteen: Vec<TaskDocument> = (1..=16).map(|n| task("done", &format!("t{}", n))).collect();
    let text = compose_daily_summary("W", "d", &sixteen);
    assert!(text.contains("Completed Today (16)"));
    assert!(text.contains("• ✅ t15\n"));
    assert!(!text.contains("t16"));
    assert!(text.ends_with("• ✅ t15\n… and 1 more\n\n"));

    let mut mixed: Vec<TaskDocument> = Vec::new();
    for n in 1..=40 {
        mixed.push(task("todo", &format!("p{}", n)));
        if n <= 20 {
            mixed.push(task("done", &format!("c{}", n)));
        }
    }
    let text = compose_daily_summary("W", "d", &mixed);
    let mut expected = String::from("📊 **Daily Summary: W** - d\n\n🎯 **Completed Today (20)**\n");
    for n in 1..=15 {
        expected.push_str(&format!("• ✅ c{}\n", n));
    }
    expected.push_str("… and 5 more\n\n⏳ **Pending Tasks (40)**\n");
    for n in 1..=15 {
        expected.push_str(&format!("• 📝 p{}\n", n));
    }
    expected.push_str("… and 25 more\n");
    assert_eq!(text, expected);
}

#[test]
fn large_counts_are_written_in_decimal() {
    let many: Vec<TaskDocument> = (0..1234).map(|_| task("todo", "t")).collect();
    let text = compose_daily_summary("W", "d", &many);
    assert!(text.contains("⏳ **Pending Tasks (1234)**\n"));
    assert!(text.ends_with("… and 1219 more\n"));
}

#[test]
fn the_digest_fetches_every_task_that_is_not_archived() {
    let filter = digest_task_filter();
    assert_eq!(
        filter,
        TaskFilterQuery {
            status: None,
            category: Some("all".to_string()),
            project: Some("all".to_string()),
            assignee_id: Some("all".to_string()),
            sprint_id: Some("all".to_string()),
            search: None,
            start_date: None,
            end_date: None,
            include_archived: Some(false),
        }
    );
}
