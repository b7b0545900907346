//! The scheduled digest of a workspace: when one is due, and what it says.
//!
//! Once a minute the caller reads the clock, lists the workspaces whose
//! digest is switched on, and asks here which of them are due. For each due
//! workspace it fetches the tasks, has the summary composed here, posts it,
//! and on success records the time of sending.

use crate::models::data::{TaskDocument, TaskFilterQuery};
use crate::models::workspace::{NotificationConfig, Workspace};
use crate::text::{decimal, decimal_text, opt_text, str_eq};
use vstd::arithmetic::div_mod::{lemma_fundamental_div_mod, lemma_fundamental_div_mod_converse};
use vstd::prelude::*;
use vstd::string::*;

verus! {

/// The zone in which digest schedules are read, in seconds east of UTC.
pub const DIGEST_UTC_OFFSET_SECONDS: i32 = 25_200;

/// The minutes that must have passed since the last digest of a workspace
/// before the next one is sent.
pub const DIGEST_QUIET_MINUTES: i64 = 55;

/// The number of tasks a section of the digest lists at most.
pub const DIGEST_SECTION_CAP: usize = 15;

/// The seconds between two looks at the digest schedules.
pub const DIGEST_INTERVAL_SECONDS: u64 = 60;

/// The wall-clock instant, in milliseconds, that a zone `offset_secs` east
/// of UTC shows at `now_ms`.
pub open spec fn local_millis(now_ms: int, offset_secs: int) -> int {
    now_ms + offset_secs * 1000
}

/// The weekday of a wall-clock instant, counted from Sunday as 0. (The
/// first day of 1970 was a Thursday.)
pub open spec fn weekday_from_sunday(local_ms: int) -> int {
    (local_ms / 86_400_000 + 4) % 7
}

/// The milliseconds since midnight of a wall-clock instant.
pub open spec fn millis_of_day(local_ms: int) -> int {
    local_ms % 86_400_000
}

/// The hour of the day of a wall-clock instant.
pub open spec fn hour_of_day(local_ms: int) -> int {
    millis_of_day(local_ms) / 3_600_000
}

/// The minute of the hour of a wall-clock instant.
pub open spec fn minute_of_hour(local_ms: int) -> int {
    (millis_of_day(local_ms) % 3_600_000) / 60_000
}

/// A number written with two digits at least: in decimal, with a zero in
/// front where it is below ten.
pub open spec fn two_digits(n: nat) -> Seq<char> {
    if n < 10 {
        seq!['0'] + decimal(n)
    } else {
        decimal(n)
    }
}

/// A time of day written `HH:MM`.
pub open spec fn clock_text(hour: int, minute: int) -> Seq<char> {
    two_digits(hour as nat) + seq![':'] + two_digits(minute as nat)
}

/// What a wall clock shows: the weekday counted from Sunday as 0, the hour
/// and the minute.
#[derive(Debug, Clone, Copy, PartialEq, Eq)]
pub struct WallClock {
    pub weekday: u8,
    pub hour: u8,
    pub minute: u8,
}

/// Quotient and remainder of `x` by `d`, the quotient rounded down.
fn floor_div_mod(x: i128, d: i128) -> (qr: (i128, i128))
    requires
        0 < d <= 1_000_000_000,
        -1_000_000_000_000_000_000_000 <= x <= 1_000_000_000_000_000_000_000,
    ensures
        qr.0 == x / d,
        qr.1 == x % d,
{
    if x >= 0 {
        (x / d, x % d)
    } else {
        let m = -x;
        let quotient = m / d;
        let remainder = m % d;
        proof {
            lemma_fundamental_div_mod(m as int, d as int);
        }
        if remainder == 0 {
            proof {
                assert(x as int == (-quotient) * d + 0) by (nonlinear_arith)
                    requires
                        m as int == d * quotient + remainder,
                        remainder == 0,
                        x == -m,
                ;
                lemma_fundamental_div_mod_converse(x as int, d as int, -(quotient as int), 0);
            }
            (-quotient, 0)
        } else {
            proof {
                assert(x as int == (-quotient - 1) * d + (d - remainder)) by (nonlinear_arith)
                    requires
                        m as int == d * quotient + remainder,
                        x == -m,
                ;
                assert(quotient <= m) by (nonlinear_arith)
                    requires
                        m as int == d * quotient + remainder,
                        0 <= remainder,
                        d >= 1,
                        quotient >= 0,
                ;
                lemma_fundamental_div_mod_converse(
                    x as int,
                    d as int,
                    -(quotient as int) - 1,
                    (d - remainder) as int,
                );
            }
            (-quotient - 1, d - remainder)
        }
    }
}

/// What the wall clock shows at `now_ms` in the zone `offset_secs` east of
/// UTC.
pub fn wall_clock(now_ms: i64, offset_secs: i32) -> (clock: WallClock)
    ensures
        clock.weekday == weekday_from_sunday(local_millis(now_ms as int, offset_secs as int)),
        clock.hour == hour_of_day(local_millis(now_ms as int, offset_secs as int)),
        clock.minute == minute_of_hour(local_millis(now_ms as int, offset_secs as int)),
        clock.weekday < 7,
        clock.hour < 24,
        clock.minute < 60,
{
    let local: i128 = now_ms as i128 + offset_secs as i128 * 1000;
    let (days, in_day) = floor_div_mod(local, 86_400_000);
    assert(-200_000_000_000_000 <= days <= 200_000_000_000_000) by {
        lemma_fundamental_div_mod(local as int, 86_400_000);
    }
    let (_, weekday) = floor_div_mod(days + 4, 7);
    let hour = in_day / 3_600_000;
    let minute = (in_day % 3_600_000) / 60_000;
    WallClock { weekday: weekday as u8, hour: hour as u8, minute: minute as u8 }
}

/// Appends `n`, written with two digits at least.
fn write_two_digits(out: &mut String, n: u8)
    ensures
        final(out)@ == old(out)@ + two_digits(n as nat),
{
    proof {
        reveal_strlit("0");
    }
    if n < 10 {
        out.append("0");
    }
    let digits = decimal_text(n as usize);
    out.append(digits.as_str());
    assert(out@ =~= old(out)@ + two_digits(n as nat));
}

/// The time of day `hour`:`minute`, written `HH:MM`.
pub fn clock_time_text(hour: u8, minute: u8) -> (text: String)
    ensures
        text@ == clock_text(hour as int, minute as int),
{
    let mut text = String::new();
    write_two_digits(&mut text, hour);
    proof {
        reveal_strlit(":");
    }
    text.append(":");
    write_two_digits(&mut text, minute);
    assert(text@ =~= clock_text(hour as int, minute as int));
    text
}

/// What a `NotificationConfig` stands for.
pub struct NotificationConfigView {
    pub webhook_url: Option<Seq<char>>,
    pub enabled: bool,
    pub days: Seq<u8>,
    pub time: Seq<char>,
    pub last_sent_at: Option<int>,
}

impl View for NotificationConfig {
    type V = NotificationConfigView;

    open spec fn view(&self) -> NotificationConfigView {
        NotificationConfigView {
            webhook_url: opt_text(self.discord_webhook_url),
            enabled: self.enabled,
            days: self.days@,
            time: self.time@,
            last_sent_at: match self.last_sent_at {
                Some(at) => Some(at as int),
                None => None,
            },
        }
    }
}

/// Whole minutes between two instants given in milliseconds, rounded
/// towards zero.
pub open spec fn whole_minutes_between(since: int, now: int) -> int {
    if now >= since {
        (now - since) / 60_000
    } else {
        -((since - now) / 60_000)
    }
}

/// Whether the digest of a workspace is due: it is switched on, today is one
/// of its days, the clock shows its time to the minute, and the last digest,
/// if there was one, was sent `DIGEST_QUIET_MINUTES` minutes ago or earlier.
pub open spec fn digest_due(
    config: NotificationConfigView,
    weekday: int,
    time: Seq<char>,
    now_ms: int,
) -> bool {
    &&& config.enabled
    &&& exists|i: int| 0 <= i < config.days.len() && #[trigger] config.days[i] == weekday
    &&& config.time == time
    &&& match config.last_sent_at {
        Some(last) => whole_minutes_between(last, now_ms) >= DIGEST_QUIET_MINUTES,
        None => true,
    }
}

/// Whether the digest of a workspace is due at `now_ms`, when the clock of
/// the digest zone shows `current_day` and `current_time`.
pub fn is_digest_due(config: &NotificationConfig, current_day: u8, current_time: &str, now_ms: i64) -> (due:
    bool)
    ensures
        due == digest_due(config@, current_day as int, current_time@, now_ms as int),
{
    if !config.enabled {
        return false;
    }
    let mut on_day = false;
    let mut i: usize = 0;
    while i < config.days.len()
        invariant
            i <= config.days.len(),
            config@.days == config.days@,
            on_day == exists|j: int|
                0 <= j < i && #[trigger] config@.days[j] == current_day as int,
        decreases config.days.len() - i,
    {
        if config.days[i] == current_day {
            on_day = true;
        }
        i += 1;
    }
    if !on_day {
        return false;
    }
    if !str_eq(config.time.as_str(), current_time) {
        return false;
    }
    match config.last_sent_at {
        Some(last) => {
            let minutes: i128 = if now_ms >= last {
                (now_ms as i128 - last as i128) / 60_000
            } else {
                -((last as i128 - now_ms as i128) / 60_000)
            };
            minutes >= DIGEST_QUIET_MINUTES as i128
        },
        None => true,
    }
}

/// The settings after a digest was sent at `now_ms`.
pub open spec fn marked_sent(
    config: NotificationConfigView,
    now_ms: int,
) -> NotificationConfigView {
    NotificationConfigView { last_sent_at: Some(now_ms), ..config }
}

/// Records that a digest was sent at `now_ms`.
pub fn mark_digest_sent(config: &mut NotificationConfig, now_ms: i64)
    ensures
        final(config)@ == marked_sent(old(config)@, now_ms as int),
{
    config.last_sent_at = Some(now_ms);
}

/// No workspace is sent two digests within `DIGEST_QUIET_MINUTES` minutes:
/// once a digest was sent at `sent_at`, none is due at a later instant less
/// than that many minutes away, whatever the clock shows.
pub proof fn lemma_digest_idempotence(
    config: NotificationConfigView,
    sent_at: int,
    later: int,
    weekday: int,
    time: Seq<char>,
)
    requires
        sent_at <= later < sent_at + DIGEST_QUIET_MINUTES * 60_000,
    ensures
        !digest_due(marked_sent(config, sent_at), weekday, time, later),
{
}

/// Whether the digest of `workspace` is due at `now_ms` by the clock of the
/// digest zone: it has digest settings that are due, and persistence has
/// given it an id.
pub open spec fn workspace_due(workspace: Workspace, now_ms: int) -> bool {
    let local = local_millis(now_ms, DIGEST_UTC_OFFSET_SECONDS as int);
    &&& workspace.id is Some
    &&& workspace.notification_config matches Some(config)
    &&& digest_due(
        config@,
        weekday_from_sunday(local),
        clock_text(hour_of_day(local), minute_of_hour(local)),
        now_ms,
    )
}

/// One look at the digest schedules: the positions in `workspaces` of those
/// whose digest is due at `now_ms`, in increasing order.
pub fn check_and_send_notifications(workspaces: &Vec<Workspace>, now_ms: i64) -> (due: Vec<usize>)
    ensures
        forall|k: int| 0 <= k < due@.len() ==> 0 <= #[trigger] due@[k] < workspaces@.len(),
        forall|k: int|
            0 <= k < due@.len() ==> workspace_due(
                workspaces@[#[trigger] due@[k] as int],
                now_ms as int,
            ),
        forall|k: int, l: int| 0 <= k < l < due@.len() ==> due@[k] < due@[l],
        forall|i: int|
            0 <= i < workspaces@.len() && workspace_due(#[trigger] workspaces@[i], now_ms as int)
                ==> exists|k: int| 0 <= k < due@.len() && due@[k] == i,
{
    let clock = wall_clock(now_ms, DIGEST_UTC_OFFSET_SECONDS);
    let time = clock_time_text(clock.hour, clock.minute);
    let mut due: Vec<usize> = Vec::new();
    let mut i: usize = 0;
    while i < workspaces.len()
        invariant
            i <= workspaces.len(),
            clock.weekday == weekday_from_sunday(
                local_millis(now_ms as int, DIGEST_UTC_OFFSET_SECONDS as int),
            ),
            time@ == clock_text(
                hour_of_day(local_millis(now_ms as int, DIGEST_UTC_OFFSET_SECONDS as int)),
                minute_of_hour(local_millis(now_ms as int, DIGEST_UTC_OFFSET_SECONDS as int)),
            ),
            forall|k: int| 0 <= k < due@.len() ==> 0 <= #[trigger] due@[k] < i,
            forall|k: int|
                0 <= k < due@.len() ==> workspace_due(
                    workspaces@[#[trigger] due@[k] as int],
                    now_ms as int,
                ),
            forall|k: int, l: int| 0 <= k < l < due@.len() ==> due@[k] < due@[l],
            forall|j: int|
                0 <= j < i && workspace_due(#[trigger] workspaces@[j], now_ms as int)
                    ==> exists|k: int| 0 <= k < due@.len() && due@[k] == j,
        decreases workspaces.len() - i,
    {
        let workspace = &workspaces[i];
        let is_due = match &workspace.notification_config {
            Some(config) => workspace.id.is_some() && is_digest_due(
                config,
                clock.weekday,
                time.as_str(),
                now_ms,
            ),
            None => false,
        };
        if is_due {
            let ghost before = due@;
            due.push(i);
            proof {
                assert forall|j: int|
                    0 <= j < i + 1 && workspace_due(
                        #[trigger] workspaces@[j],
                        now_ms as int,
                    ) implies exists|k: int| 0 <= k < due@.len() && due@[k] == j by {
                    if j < i {
                        let k = choose|k: int| 0 <= k < before.len() && before[k] == j;
                        assert(due@[k] == j);
                    } else {
                        assert(due@[due@.len() - 1] == j);
                    }
                }
            }
        }
        i += 1;
    }
    due
}

/// The filter under which the tasks of a digest are fetched: every task of
/// the workspace that is not archived.
pub fn digest_task_filter() -> (filter: TaskFilterQuery)
    ensures
        filter.status is None,
        opt_text(filter.category) == Some("all"@),
        opt_text(filter.project) == Some("all"@),
        opt_text(filter.assignee_id) == Some("all"@),
        opt_text(filter.sprint_id) == Some("all"@),
        filter.start_date is None,
        filter.end_date is None,
        filter.search is None,
        filter.include_archived == Some(false),
{
    TaskFilterQuery {
        status: None,
        category: Some("all".to_string()),
        project: Some("all".to_string()),
        assignee_id: Some("all".to_string()),
        sprint_id: Some("all".to_string()),
        search: None,
        start_date: None,
        end_date: None,
        include_archived: Some(false),
    }
}

/// A task as the digest shows it.
pub struct TaskLine {
    pub status: Seq<char>,
    pub title: Seq<char>,
}

/// What the digest shows of `task`.
pub open spec fn task_line(task: TaskDocument) -> TaskLine {
    TaskLine { status: task.status@, title: task.title@ }
}

/// What the digest shows of each of `tasks`, in order.
pub open spec fn task_lines(tasks: Seq<TaskDocument>) -> Seq<TaskLine> {
    tasks.map_values(|task: TaskDocument| task_line(task))
}

/// Whether a task counts as completed.
pub open spec fn is_done(line: TaskLine) -> bool {
    line.status == "done"@
}

/// The completed (`done`) or the other (`!done`) tasks among `lines`, in
/// order.
pub open spec fn selected(lines: Seq<TaskLine>, done: bool) -> Seq<TaskLine>
    decreases lines.len(),
{
    if lines.len() == 0 {
        Seq::empty()
    } else if is_done(lines.last()) == done {
        selected(lines.drop_last(), done).push(lines.last())
    } else {
        selected(lines.drop_last(), done)
    }
}

/// The icon of a task that is not completed, by its status.
pub open spec fn status_icon(status: Seq<char>) -> Seq<char> {
    if status == "in-progress"@ {
        "🔄"@
    } else if status == "in-test"@ {
        "🧪"@
    } else {
        "📝"@
    }
}

/// The line of the digest for one task.
pub open spec fn bullet(line: TaskLine, done: bool) -> Seq<char> {
    if done {
        "• ✅ "@ + line.title + "\n"@
    } else {
        "• "@ + status_icon(line.status) + " "@ + line.title + "\n"@
    }
}

/// The lines of the digest for `lines`, in order.
pub open spec fn bullets(lines: Seq<TaskLine>, done: bool) -> Seq<char>
    decreases lines.len(),
{
    if lines.len() == 0 {
        Seq::empty()
    } else {
        bullets(lines.drop_last(), done) + bullet(lines.last(), done)
    }
}

/// The heading of a section of `count` tasks.
pub open spec fn heading(done: bool, count: nat) -> Seq<char> {
    if done {
        "🎯 **Completed Today ("@ + decimal(count) + ")**\n"@
    } else {
        "⏳ **Pending Tasks ("@ + decimal(count) + ")**\n"@
    }
}

/// The note that closes a section of more than `DIGEST_SECTION_CAP` tasks.
pub open spec fn overflow_note(count: nat) -> Seq<char> {
    if count > DIGEST_SECTION_CAP {
        "… and "@ + decimal((count - DIGEST_SECTION_CAP) as nat) + " more\n"@
    } else {
        Seq::empty()
    }
}

/// One section of the digest: nothing for no task; otherwise the heading
/// with the number of tasks, a line for each of the first
/// `DIGEST_SECTION_CAP` tasks, and a note on how many more there are. The
/// section of completed tasks ends with an empty line.
pub open spec fn section(lines: Seq<TaskLine>, done: bool) -> Seq<char> {
    if lines.len() == 0 {
        Seq::empty()
    } else {
        let shown = if lines.len() > DIGEST_SECTION_CAP {
            DIGEST_SECTION_CAP as int
        } else {
            lines.len() as int
        };
        heading(done, lines.len()) + bullets(lines.take(shown), done) + overflow_note(lines.len())
            + if done {
            "\n"@
        } else {
            Seq::empty()
        }
    }
}

/// The text of the digest of the workspace `name` on the day `today`: a
/// title line, the completed tasks, then the other tasks.
pub open spec fn summary_text(
    name: Seq<char>,
    today: Seq<char>,
    lines: Seq<TaskLine>,
) -> Seq<char> {
    "📊 **Daily Summary: "@ + name + "** - "@ + today + "\n\n"@ + section(
        selected(lines, true),
        true,
    ) + section(selected(lines, false), false)
}

/// What the digest shows of the tasks at the positions `at`.
pub open spec fn lines_at(tasks: Seq<TaskDocument>, at: Seq<usize>) -> Seq<TaskLine> {
    at.map_values(|i: usize| task_line(tasks[i as int]))
}

/// The positions of the completed tasks and those of the other tasks.
fn partition(tasks: &Vec<TaskDocument>) -> (parts: (Vec<usize>, Vec<usize>))
    ensures
        forall|k: int| 0 <= k < parts.0@.len() ==> #[trigger] parts.0@[k] < tasks@.len(),
        forall|k: int| 0 <= k < parts.1@.len() ==> #[trigger] parts.1@[k] < tasks@.len(),
        lines_at(tasks@, parts.0@) == selected(task_lines(tasks@), true),
        lines_at(tasks@, parts.1@) == selected(task_lines(tasks@), false),
{
    let mut done: Vec<usize> = Vec::new();
    let mut pending: Vec<usize> = Vec::new();
    let mut i: usize = 0;
    assert(task_lines(tasks@).take(0) =~= Seq::empty());
    assert(lines_at(tasks@, done@) =~= Seq::empty());
    assert(lines_at(tasks@, pending@) =~= Seq::empty());
    while i < tasks.len()
        invariant
            i <= tasks.len(),
            forall|k: int| 0 <= k < done@.len() ==> #[trigger] done@[k] < tasks@.len(),
            forall|k: int| 0 <= k < pending@.len() ==> #[trigger] pending@[k] < tasks@.len(),
            lines_at(tasks@, done@) == selected(task_lines(tasks@).take(i as int), true),
            lines_at(tasks@, pending@) == selected(task_lines(tasks@).take(i as int), false),
        decreases tasks.len() - i,
    {
        let ghost seen = task_lines(tasks@).take(i as int);
        let ghost next = task_lines(tasks@).take(i as int + 1);
        proof {
            assert(next.drop_last() =~= seen);
            assert(next.last() == task_line(tasks@[i as int]));
        }
        let ghost done_before = done@;
        let ghost pending_before = pending@;
        if str_eq(tasks[i].status.as_str(), "done") {
            done.push(i);
            assert(lines_at(tasks@, done@) =~= lines_at(tasks@, done_before).push(
                task_line(tasks@[i as int]),
            ));
        } else {
            pending.push(i);
            assert(lines_at(tasks@, pending@) =~= lines_at(tasks@, pending_before).push(
                task_line(tasks@[i as int]),
            ));
        }
        i += 1;
    }
    assert(task_lines(tasks@).take(i as int) =~= task_lines(tasks@));
    (done, pending)
}

/// Appends the line of the digest for `task`.
fn write_bullet(out: &mut String, task: &TaskDocument, done: bool)
    ensures
        final(out)@ == old(out)@ + bullet(task_line(*task), done),
{
    if done {
        out.append("• ✅ ");
        out.append(task.title.as_str());
        out.append("\n");
        assert(out@ =~= old(out)@ + bullet(task_line(*task), done));
    } else {
        out.append("• ");
        if str_eq(task.status.as_str(), "in-progress") {
            out.append("🔄");
        } else if str_eq(task.status.as_str(), "in-test") {
            out.append("🧪");
        } else {
            out.append("📝");
        }
        out.append(" ");
        out.append(task.title.as_str());
        out.append("\n");
        assert(out@ =~= old(out)@ + bullet(task_line(*task), done));
    }
}

/// Appends the section of the digest for the tasks at the positions `at`.
fn write_section(out: &mut String, tasks: &Vec<TaskDocument>, at: &Vec<usize>, done: bool)
    requires
        forall|k: int| 0 <= k < at@.len() ==> #[trigger] at@[k] < tasks@.len(),
    ensures
        final(out)@ == old(out)@ + section(lines_at(tasks@, at@), done),
{
    let ghost lines = lines_at(tasks@, at@);
    if at.len() == 0 {
        assert(out@ =~= old(out)@ + section(lines, done));
        return ;
    }
    if done {
        out.append("🎯 **Completed Today (");
    } else {
        out.append("⏳ **Pending Tasks (");
    }
    let count = decimal_text(at.len());
    out.append(count.as_str());
    out.append(")**\n");
    assert(out@ =~= old(out)@ + heading(done, lines.len()));
    let shown: usize = if at.len() > DIGEST_SECTION_CAP {
        DIGEST_SECTION_CAP
    } else {
        at.len()
    };
    let mut k: usize = 0;
    assert(bullets(lines.take(0), done) =~= Seq::empty());
    assert(out@ =~= old(out)@ + heading(done, lines.len()) + bullets(lines.take(0), done));
    while k < shown
        invariant
            k <= shown <= at@.len(),
            lines == lines_at(tasks@, at@),
            forall|j: int| 0 <= j < at@.len() ==> #[trigger] at@[j] < tasks@.len(),
            out@ == old(out)@ + heading(done, lines.len()) + bullets(lines.take(k as int), done),
        decreases shown - k,
    {
        let ghost written = out@;
        write_bullet(out, &tasks[at[k]], done);
        proof {
            let upto = lines.take(k as int + 1);
            assert(upto.drop_last() =~= lines.take(k as int));
            assert(upto.last() == task_line(tasks@[at@[k as int] as int]));
            assert(out@ =~= old(out)@ + heading(done, lines.len()) + bullets(upto, done));
        }
        k += 1;
    }
    let ghost listed = out@;
    if at.len() > DIGEST_SECTION_CAP {
        out.append("… and ");
        let more = decimal_text(at.len() - DIGEST_SECTION_CAP);
        out.append(more.as_str());
        out.append(" more\n");
    }
    assert(out@ =~= listed + overflow_note(lines.len()));
    if done {
        out.append("\n");
    }
    assert(out@ =~= old(out)@ + section(lines, done));
}

/// The text of the digest of the workspace `workspace_name` on the day
/// `today`.
pub fn compose_daily_summary(workspace_name: &str, today: &str, tasks: &Vec<TaskDocument>) -> (text:
    String)
    ensures
        text@ == summary_text(workspace_name@, today@, task_lines(tasks@)),
{
    let (done, pending) = partition(tasks);
    let mut text = "📊 **Daily Summary: ".to_string();
    text.append(workspace_name);
    text.append("** - ");
    text.append(today);
    text.append("\n\n");
    write_section(&mut text, tasks, &done, true);
    write_section(&mut text, tasks, &pending, false);
    text
}

/// What is posted to the webhook of a workspace: the sender shown, the
/// title and text of the digest, and how it is dressed.
#[derive(Debug, Clone, PartialEq)]
pub struct DigestPost {
    pub url: String,
    pub username: String,
    pub avatar_url: String,
    pub title: String,
    pub description: String,
    pub color: u32,
    pub footer: String,
}

/// What a `DigestPost` stands for.
pub struct DigestPostView {
    pub url: Seq<char>,
    pub username: Seq<char>,
    pub avatar_url: Seq<char>,
    pub title: Seq<char>,
    pub description: Seq<char>,
    pub color: int,
    pub footer: Seq<char>,
}

impl View for DigestPost {
    type V = DigestPostView;

    open spec fn view(&self) -> DigestPostView {
        DigestPostView {
            url: self.url@,
            username: self.username@,
            avatar_url: self.avatar_url@,
            title: self.title@,
            description: self.description@,
            color: self.color as int,
            footer: self.footer@,
        }
    }
}

/// The digest of the workspace `name` on the day `today`, to be posted to
/// `url`.
pub open spec fn digest_post(
    url: Seq<char>,
    name: Seq<char>,
    today: Seq<char>,
    lines: Seq<TaskLine>,
) -> DigestPostView {
    DigestPostView {
        url,
        username: "Khun Phaen Reporter"@,
        avatar_url: "https://raw.githubusercontent.com/watchakorn-18k/khu-phaen-tracker-offline/main/static/logo.png"@,
        title: "Report for "@ + name,
        description: summary_text(name, today, lines),
        color: 0x4F46E5,
        footer: "Khun Phaen Task Tracker ✨"@,
    }
}

/// What is to be posted for a due workspace: nothing where the workspace
/// has no webhook, where it has no task, or where the day has no name;
/// otherwise its digest.
pub open spec fn planned_post(
    name: Seq<char>,
    webhook_url: Option<Seq<char>>,
    lines: Seq<TaskLine>,
    today: Option<Seq<char>>,
) -> Option<DigestPostView> {
    match (webhook_url, today) {
        (Some(url), Some(day)) => if lines.len() == 0 {
            None
        } else {
            Some(digest_post(url, name, day, lines))
        },
        _ => None,
    }
}

/// What is to be posted for the due workspace `workspace_name` on the day
/// `today`. Only after the post has succeeded is the digest recorded as
/// sent; where nothing is to be posted, nothing is recorded.
pub fn plan_daily_summary(
    workspace_name: &str,
    webhook_url: Option<&str>,
    tasks: &Vec<TaskDocument>,
    today: Option<&str>,
) -> (post: Option<DigestPost>)
    ensures
        match post {
            Some(p) => Some(p@),
            None => None,
        } == planned_post(
            workspace_name@,
            match webhook_url {
                Some(url) => Some(url@),
                None => None,
            },
            task_lines(tasks@),
            match today {
                Some(day) => Some(day@),
                None => None,
            },
        ),
{
    match (webhook_url, today) {
        (Some(url), Some(day)) => {
            if tasks.len() == 0 {
                None
            } else {
                let mut title = "Report for ".to_string();
                title.append(workspace_name);
                Some(
                    DigestPost {
                        url: url.to_string(),
                        username: "Khun Phaen Reporter".to_string(),
                        avatar_url: "https://raw.githubusercontent.com/watchakorn-18k/khu-phaen-tracker-offline/main/static/logo.png".to_string(),
                        title,
                        description: compose_daily_summary(workspace_name, day, tasks),
                        color: 0x4F46E5,
                        footer: "Khun Phaen Task Tracker ✨".to_string(),
                    },
                )
            }
        },
        _ => None,
    }
}

/// The calendar date that a zone `offset_secs` east of UTC shows at
/// `now_ms`, written as year, month and day with hyphens between; nothing
/// where the instant or the offset is beyond what the calendar covers.
pub uninterp spec fn local_date(now_ms: int, offset_secs: int) -> Option<Seq<char>>;

/// chrono's calendar: `DateTime::from_timestamp_millis` for the instant,
/// `FixedOffset::east_opt` for the zone, and `format("%Y-%m-%d")` for the
/// date that zone shows at that instant. The first two return nothing for
/// an instant or an offset out of their range.
#[verifier::external_body]
pub(crate) fn local_date_text(now_ms: i64, offset_secs: i32) -> (date: Option<String>)
    ensures
        opt_text(date) == local_date(now_ms as int, offset_secs as int),
{
    let offset = chrono::FixedOffset::east_opt(offset_secs)?;
    let at = chrono::DateTime::from_timestamp_millis(now_ms)?;
    Some(at.with_timezone(&offset).format("%Y-%m-%d").to_string())
}

/// What is to be posted for the due workspace `workspace_name` at `now_ms`,
/// dated by the clock of the digest zone.
pub fn send_daily_summary_to_discord(
    workspace_name: &str,
    webhook_url: Option<&str>,
    tasks: &Vec<TaskDocument>,
    now_ms: i64,
) -> (post: Option<DigestPost>)
    ensures
        match post {
            Some(p) => Some(p@),
            None => None,
        } == planned_post(
            workspace_name@,
            match webhook_url {
                Some(url) => Some(url@),
                None => None,
            },
            task_lines(tasks@),
            local_date(now_ms as int, DIGEST_UTC_OFFSET_SECONDS as int),
        ),
{
    let today = local_date_text(now_ms, DIGEST_UTC_OFFSET_SECONDS);
    match &today {
        Some(day) => plan_daily_summary(workspace_name, webhook_url, tasks, Some(day.as_str())),
        None => plan_daily_summary(workspace_name, webhook_url, tasks, None),
    }
}

} // verus!
