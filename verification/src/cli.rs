use vstd::prelude::*;
use chrono::Datelike;
use crate::clock::{self, civil_date_valid, civil_ms, day_ms};
use crate::error::{text, TimeTrackerError};
use crate::models::ExportFormat;
use crate::pomodoro::{PomodoroCallbacks, PomodoroConfig, PomodoroState, PomodoroTimer, TimerView};
use crate::text::{lowercase_of, padded, push_padded, push_str, string_of, to_lowercase};

verus! {

/// The sub-commands of the command line. Durations are in minutes.
#[derive(Debug, Clone)]
pub enum Commands {
    /// Start a pomodoro.
    Start { duration: u32, project: Option<String>, tags: Vec<String> },
    /// Pause the pomodoro.
    Pause,
    /// Stop the pomodoro.
    Stop,
    /// Show statistics; `format` is one of text, json, csv.
    Stats { from: Option<String>, to: Option<String>, project: Option<String>, format: String },
    /// Export data to `output`; `format` is one of json, csv, excel.
    Export { output: String, format: String, from: Option<String>, to: Option<String> },
}

/// The command line: verbose logging, no window, and a sub-command.
#[derive(Debug, Clone)]
pub struct Cli {
    pub verbose: bool,
    pub no_gui: bool,
    pub command: Option<Commands>,
}

/// The calendar date a text gives in the form `%Y-%m-%d`, as chrono's
/// `NaiveDate::parse_from_str` reads it (year, month, day), or the text of
/// chrono's parse error.
pub uninterp spec fn ymd_of(s: Seq<char>) -> Result<(i32, u32, u32), Seq<char>>;

/// `chrono::NaiveDate::parse_from_str(s, "%Y-%m-%d")`, giving the date's
/// year, month and day, or the `Display` text of the parse error. The result
/// depends on the text alone.
#[verifier::external_body]
pub(crate) fn parse_ymd(s: &str) -> (r: Result<(i32, u32, u32), String>)
    ensures
        r matches Ok(d) ==> (ymd_of(s@) matches Ok(x) && x == d),
        r matches Err(e) ==> (ymd_of(s@) matches Err(x) && x == e@),
{
    match chrono::NaiveDate::parse_from_str(s, "%Y-%m-%d") {
        Ok(d) => Ok((d.year(), d.month(), d.day())),
        Err(e) => Err(e.to_string()),
    }
}

/// The millisecond timestamp of the local time `hour:minute:second` on the
/// date `year-month-day`, through `NaiveDate::from_ymd_opt`,
/// `NaiveDate::and_hms_opt`, `NaiveDateTime::and_local_timezone(Local)` and
/// `LocalResult::single`; `None` where one of them gives none. The first two
/// give `None` on a date that is not in the calendar and on an hour, minute or
/// second out of range. The instant is the wall time less the zone's offset
/// there (`TimeZone::from_local_datetime`), and chrono's offsets
/// (`FixedOffset::east_opt`) lie strictly within a day. Which offset applies,
/// and whether the zone has exactly one such instant, depends on the
/// machine's time zone and is not stated.
#[verifier::external_body]
pub(crate) fn local_timestamp(year: i32, month: u32, day: u32, hour: u32, minute: u32, second: u32) -> (r: Option<i64>)
    ensures
        r matches Some(t) ==> {
            &&& civil_date_valid(year as int, month as int, day as int)
            &&& hour < 24 && minute < 60 && second < 60
            &&& -day_ms() < t - civil_ms(year as int, month as int, day as int, hour as int, minute as int, second as int) < day_ms()
        },
{
    chrono::NaiveDate::from_ymd_opt(year, month, day)
        .and_then(|d| d.and_hms_opt(hour, minute, second))
        .and_then(|t| t.and_local_timezone(chrono::Local).single())
        .map(|t| t.timestamp_millis())
}

/// `t` is the local time `hour:minute:second` on the date `date` gives, as
/// far as it can be stated without the machine's time zone: less than a day
/// from that wall time read as UTC.
pub open spec fn near_local_time(date: Seq<char>, hour: int, minute: int, second: int, t: int) -> bool {
    ymd_of(date) matches Ok(ymd) && civil_date_valid(ymd.0 as int, ymd.1 as int, ymd.2 as int)
        && -day_ms() < t - civil_ms(ymd.0 as int, ymd.1 as int, ymd.2 as int, hour, minute, second) < day_ms()
}

/// The local time `hour:minute:second` on the date a `%Y-%m-%d` text gives:
/// a parse error carries chrono's message, a time that the local zone does not
/// have reads `Invalid timezone`.
pub fn day_bound(date: &str, hour: u32, minute: u32, second: u32) -> (r: Result<i64, TimeTrackerError>)
    ensures
        ymd_of(date@) matches Err(e) ==> (r matches Err(TimeTrackerError::Parse(m)) && m@ == e),
        ymd_of(date@) is Ok ==> (r matches Err(TimeTrackerError::Parse(m)) ==> m@ == "Invalid timezone"@),
        r matches Err(x) ==> x is Parse,
        r matches Ok(t) ==> near_local_time(date@, hour as int, minute as int, second as int, t as int),
{
    match parse_ymd(date) {
        Ok((y, m, d)) => match local_timestamp(y, m, d, hour, minute, second) {
            Some(t) => Ok(t),
            None => Err(TimeTrackerError::Parse(text("Invalid timezone"))),
        },
        Err(e) => Err(TimeTrackerError::Parse(e)),
    }
}

/// `message` is what a failed date `date` gives: chrono's parse error, or
/// `Invalid timezone` for a date whose local time the zone does not have.
pub open spec fn date_failure(date: Seq<char>, message: Seq<char>) -> bool {
    ||| ymd_of(date) matches Err(e) && e == message
    ||| ymd_of(date) is Ok && message == "Invalid timezone"@
}

/// No date was given, or the one given reads as a `%Y-%m-%d` date.
pub open spec fn date_readable(date: Option<String>) -> bool {
    date matches Some(d) ==> ymd_of(d@) is Ok
}

/// chrono's parse error for a date given that does not read as `%Y-%m-%d`.
pub open spec fn date_error(date: Option<String>) -> Option<Seq<char>> {
    match date {
        Some(d) => match ymd_of(d@) {
            Err(e) => Some(e),
            Ok(_) => None,
        },
        None => None,
    }
}

/// How statistics are shown: as text, or in an export format.
pub open spec fn stats_format_of(lowered: Seq<char>) -> Option<Option<ExportFormat>> {
    if lowered == "text"@ {
        Some(None)
    } else if lowered == "json"@ {
        Some(Some(ExportFormat::JSON))
    } else if lowered == "csv"@ {
        Some(Some(ExportFormat::CSV))
    } else if lowered == "excel"@ {
        Some(Some(ExportFormat::Excel))
    } else {
        None
    }
}

/// The message for a format that statistics cannot be shown in.
pub open spec fn unsupported_format_text(format: Seq<char>) -> Seq<char> {
    "Unsupported export format: "@ + format
}

/// The format of the statistics, named in any case: `None` for text, else the
/// export format; any other name is refused.
pub fn stats_format(format: &str) -> (r: Result<Option<ExportFormat>, TimeTrackerError>)
    ensures
        stats_format_of(lowercase_of(format@)) matches Some(f) ==> (r matches Ok(g) && g == f),
        stats_format_of(lowercase_of(format@)) is None ==> (r matches Err(TimeTrackerError::Platform(m))
            && m@ == unsupported_format_text(format@)),
{
    let lowered = to_lowercase(format);
    proof {
        reveal_strlit("text");
        reveal_strlit("json");
        reveal_strlit("csv");
        reveal_strlit("excel");
    }
    if lowered == text("text") {
        Ok(None)
    } else if lowered == text("json") {
        Ok(Some(ExportFormat::JSON))
    } else if lowered == text("csv") {
        Ok(Some(ExportFormat::CSV))
    } else if lowered == text("excel") {
        Ok(Some(ExportFormat::Excel))
    } else {
        let mut out: Vec<char> = Vec::new();
        push_str(&mut out, "Unsupported export format: ");
        push_str(&mut out, format);
        Err(TimeTrackerError::Platform(string_of(&out)))
    }
}

/// What statistics to show: the range as millisecond timestamps, the project
/// named, and the format (`None` for text).
#[derive(Debug, Clone)]
pub struct StatsQuery {
    pub start: i64,
    pub end: i64,
    pub project: Option<String>,
    pub format: Option<ExportFormat>,
}

/// Thirty days in milliseconds.
pub const THIRTY_DAYS_MS: i64 = 2_592_000_000;

/// The start of statistics given no first date: thirty days before `now`,
/// or the earliest time where that lies before it.
pub open spec fn default_start(now: i64) -> i64 {
    if now >= i64::MIN + THIRTY_DAYS_MS {
        (now - THIRTY_DAYS_MS) as i64
    } else {
        i64::MIN
    }
}

/// The start of statistics given no first date, from the clock's reading.
pub fn default_start_from(now: i64) -> (s: i64)
    ensures
        s == default_start(now),
{
    if now >= i64::MIN + THIRTY_DAYS_MS {
        now - THIRTY_DAYS_MS
    } else {
        i64::MIN
    }
}

/// The remaining time as the command line shows it: `MM:SS` of whole seconds,
/// each part at least two digits.
pub open spec fn clock_text(remaining_ms: nat) -> Seq<char> {
    padded(remaining_ms / 1000 / 60, 2) + ":"@ + padded(remaining_ms / 1000 % 60, 2)
}

/// The line that shows the remaining time: `剩余时间: MM:SS`.
pub open spec fn remaining_text(remaining_ms: nat) -> Seq<char> {
    "剩余时间: "@ + clock_text(remaining_ms)
}

/// The line that shows the remaining time.
pub fn remaining_line(remaining_ms: u64) -> (r: String)
    ensures
        r@ == remaining_text(remaining_ms as nat),
{
    let secs = remaining_ms / 1000;
    let mut out: Vec<char> = Vec::new();
    push_str(&mut out, "剩余时间: ");
    push_padded(&mut out, secs / 60, 2);
    push_str(&mut out, ":");
    push_padded(&mut out, secs % 60, 2);
    assert(out@ =~= remaining_text(remaining_ms as nat));
    string_of(&out)
}

/// Texts joined with `, `.
pub open spec fn joined(s: Seq<Seq<char>>) -> Seq<char>
    decreases s.len(),
{
    if s.len() == 0 {
        Seq::empty()
    } else if s.len() == 1 {
        s[0]
    } else {
        joined(s.drop_last()) + ", "@ + s.last()
    }
}

/// The texts of a sequence of strings.
pub open spec fn views(s: Seq<String>) -> Seq<Seq<char>> {
    s.map_values(|x: String| x@)
}

/// Tags joined with `, `.
pub fn join_tags(tags: &Vec<String>) -> (r: String)
    ensures
        r@ == joined(views(tags@)),
{
    let mut out: Vec<char> = Vec::new();
    let n = tags.len();
    let mut i: usize = 0;
    while i < n
        invariant
            n == tags@.len(),
            i <= n,
            out@ == joined(views(tags@.take(i as int))),
        decreases n - i,
    {
        assert(views(tags@.take(i + 1)).drop_last() =~= views(tags@.take(i as int)));
        if i > 0 {
            push_str(&mut out, ", ");
        }
        push_str(&mut out, tags[i].as_str());
        assert(out@ =~= joined(views(tags@.take(i + 1))));
        i = i + 1;
    }
    assert(tags@.take(n as int) =~= tags@);
    string_of(&out)
}

/// The lines that show a timer: its phase, the remaining time while it
/// counts, and for work the project (its name as found) and the tags.
pub open spec fn status_text_lines(t: TimerView, project_name: Option<Seq<char>>) -> Seq<Seq<char>> {
    match t.state {
        PomodoroState::Working => {
            let head = seq!["状态: 工作中"@, remaining_text(t.remaining_time)];
            let with_project = match project_name {
                Some(n) => head.push("当前项目: "@ + n),
                None => head,
            };
            if t.tags.len() > 0 {
                with_project.push("标签: "@ + joined(views(t.tags)))
            } else {
                with_project
            }
        },
        PomodoroState::ShortBreak => seq!["状态: 短休息"@, remaining_text(t.remaining_time)],
        PomodoroState::LongBreak => seq!["状态: 长休息"@, remaining_text(t.remaining_time)],
        PomodoroState::Paused(_) => seq!["状态: 已暂停"@],
        PomodoroState::Idle => seq!["状态: 空闲"@],
    }
}

impl TimerView {
    /// The timer set up for a command-line start: work phases of `duration`
    /// minutes, the project where one is given, and the tags.
    pub open spec fn prepared(self, duration: u32, project_id: Option<i64>, tags: Seq<String>) -> TimerView {
        TimerView {
            config: PomodoroConfig { work_duration: (duration * 60_000) as u64, ..self.config },
            project: match project_id {
                Some(p) => Some(p),
                None => self.project,
            },
            tags,
            ..self
        }
    }
}

/// The command-line front end: a store and a timer. The store is the
/// caller's; this decides over the timer.
pub struct CliRunner<S, C> {
    storage: S,
    pomodoro: PomodoroTimer<C>,
}

impl<S, C: PomodoroCallbacks> CliRunner<S, C> {
    /// The store the runner was made with.
    pub closed spec fn spec_storage(&self) -> S {
        self.storage
    }

    /// The timer's content.
    pub closed spec fn timer(&self) -> TimerView {
        self.pomodoro@
    }

    pub fn new(storage: S, pomodoro: PomodoroTimer<C>) -> (r: Self)
        ensures
            r.spec_storage() == storage,
            r.timer() == pomodoro@,
    {
        CliRunner { storage, pomodoro }
    }

    /// The store.
    pub fn storage(&self) -> (s: &S)
        ensures
            *s == self.spec_storage(),
    {
        &self.storage
    }

    /// The timer.
    pub fn pomodoro(&self) -> (p: &PomodoroTimer<C>)
        ensures
            p@ == self.timer(),
    {
        &self.pomodoro
    }

    /// Brings the timer up to the clock.
    pub fn update(&mut self) -> (r: Result<(), TimeTrackerError>)
        requires
            old(self).timer().wf(),
            old(self).timer().completion_fits(),
        ensures
            r is Ok,
            final(self).timer().wf(),
            final(self).spec_storage() == old(self).spec_storage(),
            exists|now: i64, today: i64| final(self).timer() == old(self).timer().after_update(now, today)
                && #[trigger] clock::day_of_instant(now as int, Some(today)),
    {
        self.pomodoro.update()
    }

    /// Starts a pomodoro of `duration` minutes, attached to the project found
    /// for the name given (if any) and labelled with `tags`: the work length
    /// becomes `duration` minutes, then the timer starts, which fails on a
    /// timer that is already counting.
    pub fn start_pomodoro(&mut self, duration: u32, project_id: Option<i64>, tags: Vec<String>) -> (r: Result<(), TimeTrackerError>)
        requires
            old(self).timer().wf(),
        ensures
            final(self).timer().wf(),
            final(self).spec_storage() == old(self).spec_storage(),
            !old(self).timer().prepared(duration, project_id, tags@).state.is_running() ==> r is Ok
                && exists|now: i64| final(self).timer() == old(self).timer().prepared(duration, project_id, tags@).after_start(now),
            old(self).timer().prepared(duration, project_id, tags@).state.is_running()
                ==> final(self).timer() == old(self).timer().prepared(duration, project_id, tags@)
                && (r matches Err(TimeTrackerError::Platform(m)) && m@ == "Timer is already running"@),
    {
        let ms: u64 = duration as u64 * 60_000;
        let ghost prepared = old(self).timer().prepared(duration, project_id, tags@);
        self.pomodoro.set_work_duration(ms);
        match project_id {
            Some(p) => self.pomodoro.set_project(p),
            None => {},
        }
        self.pomodoro.set_tags(tags);
        assert(self.pomodoro@ == prepared);
        self.pomodoro.start()
    }

    /// Pauses the timer; fails on a timer that is not counting.
    pub fn pause_pomodoro(&mut self) -> (r: Result<(), TimeTrackerError>)
        requires
            old(self).timer().wf(),
        ensures
            final(self).timer().wf(),
            final(self).spec_storage() == old(self).spec_storage(),
            old(self).timer().state.is_running() ==> r is Ok && exists|now: i64| final(self).timer() == old(self).timer().after_pause(now),
            !old(self).timer().state.is_running() ==> final(self).timer() == old(self).timer() && (r matches Err(
                TimeTrackerError::Platform(m),
            ) && m@ == "Timer is not running"@),
    {
        self.pomodoro.pause()
    }

    /// Stops the timer.
    pub fn stop_pomodoro(&mut self) -> (r: Result<(), TimeTrackerError>)
        requires
            old(self).timer().wf(),
            old(self).timer().state is Working ==> old(self).timer().stats.total_interrupted < u32::MAX,
        ensures
            final(self).timer().wf(),
            final(self).spec_storage() == old(self).spec_storage(),
            r is Ok,
            final(self).timer() == old(self).timer().after_stop(),
    {
        self.pomodoro.stop()
    }

    /// What statistics to show: from the start of the day `from` (else thirty
    /// days before now) to the end of the day `to` (else now), for the project
    /// named, in the format named (text, json, csv or excel, in any case).
    /// The dates are read first (`from` before `to`), then the format, and
    /// the first failure is reported.
    pub fn show_stats(&self, from: &Option<String>, to: &Option<String>, project: &Option<String>, format: &str) -> (r: Result<StatsQuery, TimeTrackerError>)
        ensures
            r matches Ok(q) ==> {
                &&& stats_format_of(lowercase_of(format@)) == Some(q.format)
                &&& q.project == *project
                &&& (from matches Some(f) ==> near_local_time(f@, 0, 0, 0, q.start as int))
                &&& (from is None ==> exists|now: i64| -clock::max_calendar_ms() <= now <= clock::max_calendar_ms()
                    && q.start == #[trigger] default_start(now))
                &&& (to matches Some(t) ==> near_local_time(t@, 23, 59, 59, q.end as int))
                &&& (to is None ==> -clock::max_calendar_ms() <= q.end <= clock::max_calendar_ms())
            },
            from is None && to is None && stats_format_of(lowercase_of(format@)) is Some ==> r is Ok,
            date_error(*from) matches Some(e) ==> (r matches Err(TimeTrackerError::Parse(m)) && m@ == e),
            date_readable(*from) ==> (date_error(*to) matches Some(e) ==> (r matches Err(TimeTrackerError::Parse(m))
                && (m@ == e || m@ == "Invalid timezone"@))),
            stats_format_of(lowercase_of(format@)) is None ==> r is Err,
            r matches Err(TimeTrackerError::Platform(_)) ==> date_readable(*from) && date_readable(*to),
            r matches Err(e) ==> e is Parse || (e matches TimeTrackerError::Platform(m)
                && m@ == unsupported_format_text(format@) && stats_format_of(lowercase_of(format@)) is None),
            r matches Err(TimeTrackerError::Parse(m)) ==> (from matches Some(f) && date_failure(f@, m@))
                || (to matches Some(t) && date_failure(t@, m@)),
    {
        let start = match from {
            Some(date) => match day_bound(date.as_str(), 0, 0, 0) {
                Ok(t) => {
                    assert(ymd_of(date@) is Ok);
                    t
                },
                Err(e) => {
                    assert(ymd_of(date@) is Ok ==> (e matches TimeTrackerError::Parse(m) && m@ == "Invalid timezone"@));
                    return Err(e);
                },
            },
            None => default_start_from(clock::current_time_millis()),
        };
        assert(date_readable(*from));
        let end = match to {
            Some(date) => match day_bound(date.as_str(), 23, 59, 59) {
                Ok(t) => t,
                Err(e) => {
                    return Err(e);
                },
            },
            None => clock::current_time_millis(),
        };
        let format = match stats_format(format) {
            Ok(f) => f,
            Err(e) => {
                return Err(e);
            },
        };
        let project = crate::models::copy_opt_string(project);
        Ok(StatsQuery { start, end, project, format })
    }

    /// The lines that show the timer, given the name of its project as found
    /// in the store.
    pub fn status_lines(&self, project_name: Option<String>) -> (r: Vec<String>)
        ensures
            views(r@) == status_text_lines(self.timer(), match project_name {
                Some(n) => Some(n@),
                None => None,
            }),
    {
        let ghost name = match &project_name {
            Some(n) => Some(n@),
            None => None,
        };
        let mut out: Vec<String> = Vec::new();
        match self.pomodoro.get_state() {
            PomodoroState::Working => {
                out.push(text("状态: 工作中"));
                out.push(remaining_line(self.pomodoro.get_remaining_time()));
                match &project_name {
                    Some(n) => {
                        let mut line: Vec<char> = Vec::new();
                        push_str(&mut line, "当前项目: ");
                        push_str(&mut line, n.as_str());
                        out.push(string_of(&line));
                    },
                    None => {},
                }
                let tags = self.pomodoro.get_tags();
                if tags.len() > 0 {
                    let joined_tags = join_tags(tags);
                    let mut line: Vec<char> = Vec::new();
                    push_str(&mut line, "标签: ");
                    push_str(&mut line, joined_tags.as_str());
                    out.push(string_of(&line));
                }
            },
            PomodoroState::ShortBreak => {
                out.push(text("状态: 短休息"));
                out.push(remaining_line(self.pomodoro.get_remaining_time()));
            },
            PomodoroState::LongBreak => {
                out.push(text("状态: 长休息"));
                out.push(remaining_line(self.pomodoro.get_remaining_time()));
            },
            PomodoroState::Paused(_) => {
                out.push(text("状态: 已暂停"));
            },
            PomodoroState::Idle => {
                out.push(text("状态: 空闲"));
            },
        }
        assert(views(out@) =~= status_text_lines(self.timer(), name));
        out
    }
}

} // verus!
