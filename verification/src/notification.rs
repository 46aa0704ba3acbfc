use vstd::prelude::*;
use crate::error::text;
use crate::text::{decimal, push_decimal, push_str, string_of};

verus! {

/// What a notification is about.
#[derive(Debug, Clone, Copy, PartialEq, Eq, Structural)]
pub enum NotificationType {
    PomodoroStart,
    PomodoroEnd,
    PomodoroBreakStart,
    PomodoroBreakEnd,
    ActivityChange,
    ProductivityAlert,
    SystemAlert,
}

/// A notification. `timestamp` is a millisecond timestamp; `metadata` is JSON
/// text; `id` is given by the store that keeps it.
#[derive(Debug, Clone)]
pub struct Notification {
    pub id: Option<i64>,
    pub notification_type: NotificationType,
    pub title: String,
    pub message: String,
    pub timestamp: i64,
    pub is_read: bool,
    pub metadata: Option<String>,
}

/// A new, unread notification that has no id yet.
pub open spec fn fresh(n: Notification, kind: NotificationType, title: Seq<char>, message: Seq<char>, now: i64) -> bool {
    &&& n.id is None
    &&& n.notification_type == kind
    &&& n.title@ == title
    &&& n.message@ == message
    &&& n.timestamp == now
    &&& !n.is_read
}

/// The notice that a work phase has begun; `session` is the session as JSON
/// text.
pub fn pomodoro_start_notification(now: i64, session: String) -> (n: Notification)
    ensures
        fresh(n, NotificationType::PomodoroStart, "番茄钟开始"@, "新的番茄钟工作时段已开始"@, now),
        n.metadata == Some(session),
{
    Notification {
        id: None,
        notification_type: NotificationType::PomodoroStart,
        title: text("番茄钟开始"),
        message: text("新的番茄钟工作时段已开始"),
        timestamp: now,
        is_read: false,
        metadata: Some(session),
    }
}

/// The notice that a work phase has ended; `session` is the session as JSON
/// text.
pub fn pomodoro_end_notification(now: i64, session: String) -> (n: Notification)
    ensures
        fresh(n, NotificationType::PomodoroEnd, "番茄钟结束"@, "番茄钟工作时段已结束"@, now),
        n.metadata == Some(session),
{
    Notification {
        id: None,
        notification_type: NotificationType::PomodoroEnd,
        title: text("番茄钟结束"),
        message: text("番茄钟工作时段已结束"),
        timestamp: now,
        is_read: false,
        metadata: Some(session),
    }
}

/// The message announcing a break of `mins` minutes.
pub open spec fn break_start_text(mins: nat) -> Seq<char> {
    "开始"@ + decimal(mins) + "分钟的休息时间"@
}

/// The notice that a break of `duration_mins` minutes has begun.
pub fn break_start_notification(now: i64, duration_mins: u32) -> (n: Notification)
    ensures
        fresh(n, NotificationType::PomodoroBreakStart, "休息时间开始"@, break_start_text(duration_mins as nat), now),
        n.metadata is None,
{
    let mut out: Vec<char> = Vec::new();
    push_str(&mut out, "开始");
    push_decimal(&mut out, duration_mins as u64);
    push_str(&mut out, "分钟的休息时间");
    assert(out@ =~= break_start_text(duration_mins as nat));
    Notification {
        id: None,
        notification_type: NotificationType::PomodoroBreakStart,
        title: text("休息时间开始"),
        message: string_of(&out),
        timestamp: now,
        is_read: false,
        metadata: None,
    }
}

/// The notice that a break has ended.
pub fn break_end_notification(now: i64) -> (n: Notification)
    ensures
        fresh(n, NotificationType::PomodoroBreakEnd, "休息时间结束"@, "休息时间已结束,准备开始新的番茄钟"@, now),
        n.metadata is None,
{
    Notification {
        id: None,
        notification_type: NotificationType::PomodoroBreakEnd,
        title: text("休息时间结束"),
        message: text("休息时间已结束,准备开始新的番茄钟"),
        timestamp: now,
        is_read: false,
        metadata: None,
    }
}

/// The notice that the focus moved to a window with title `window_title`;
/// `activity` is the activity as JSON text.
pub fn activity_change_notification(now: i64, window_title: &str, activity: String) -> (n: Notification)
    ensures
        fresh(n, NotificationType::ActivityChange, "活动变更"@, "切换到新活动: "@ + window_title@, now),
        n.metadata == Some(activity),
{
    let mut out: Vec<char> = Vec::new();
    push_str(&mut out, "切换到新活动: ");
    push_str(&mut out, window_title);
    Notification {
        id: None,
        notification_type: NotificationType::ActivityChange,
        title: text("活动变更"),
        message: string_of(&out),
        timestamp: now,
        is_read: false,
        metadata: Some(activity),
    }
}

/// The message of a productivity reminder, the times in whole hours.
pub open spec fn productivity_text(productive_secs: nat, unproductive_secs: nat) -> Seq<char> {
    "今日已工作 "@ + decimal(productive_secs / 3600) + " 小时,休息 "@ + decimal(unproductive_secs / 3600) + " 小时"@
}

/// The JSON object that a productivity reminder carries.
pub open spec fn productivity_metadata(productive_secs: nat, unproductive_secs: nat) -> Seq<char> {
    "{\"productive_time\":"@ + decimal(productive_secs) + ",\"unproductive_time\":"@ + decimal(unproductive_secs) + "}"@
}

/// A reminder of the day's productive and unproductive time, given in
/// seconds.
pub fn productivity_alert_notification(now: i64, productive_secs: u64, unproductive_secs: u64) -> (n: Notification)
    ensures
        fresh(n, NotificationType::ProductivityAlert, "生产力提醒"@,
            productivity_text(productive_secs as nat, unproductive_secs as nat), now),
        n.metadata matches Some(m) && m@ == productivity_metadata(productive_secs as nat, unproductive_secs as nat),
{
    let mut out: Vec<char> = Vec::new();
    push_str(&mut out, "今日已工作 ");
    push_decimal(&mut out, productive_secs / 3600);
    push_str(&mut out, " 小时,休息 ");
    push_decimal(&mut out, unproductive_secs / 3600);
    push_str(&mut out, " 小时");
    assert(out@ =~= productivity_text(productive_secs as nat, unproductive_secs as nat));
    let mut meta: Vec<char> = Vec::new();
    push_str(&mut meta, "{\"productive_time\":");
    push_decimal(&mut meta, productive_secs);
    push_str(&mut meta, ",\"unproductive_time\":");
    push_decimal(&mut meta, unproductive_secs);
    push_str(&mut meta, "}");
    assert(meta@ =~= productivity_metadata(productive_secs as nat, unproductive_secs as nat));
    Notification {
        id: None,
        notification_type: NotificationType::ProductivityAlert,
        title: text("生产力提醒"),
        message: string_of(&out),
        timestamp: now,
        is_read: false,
        metadata: Some(string_of(&meta)),
    }
}

/// A system notice with the given title and message.
pub fn system_alert_notification(now: i64, title: &str, message: &str) -> (n: Notification)
    ensures
        fresh(n, NotificationType::SystemAlert, title@, message@, now),
        n.metadata is None,
{
    Notification {
        id: None,
        notification_type: NotificationType::SystemAlert,
        title: text(title),
        message: text(message),
        timestamp: now,
        is_read: false,
        metadata: None,
    }
}

} // verus!
