use vstd::prelude::*;
use crate::clock;
use crate::error::{text, AppError};
use crate::export::{opt_text, status_text};
use crate::models::{Activity, PomodoroSession};
use crate::text::{push_str, string_of};

verus! {

/// File formats of the export plugin.
#[derive(Debug, Clone, Copy, PartialEq, Eq, Structural)]
pub enum ExportFormat {
    JSON,
    CSV,
    Excel,
    Markdown,
}

/// Where exports go, whether they run automatically, how often (milliseconds)
/// and in which formats.
#[derive(Debug, Clone)]
pub struct ExportConfig {
    pub export_dir: String,
    pub auto_export: bool,
    pub export_interval: u64,
    pub formats: Vec<ExportFormat>,
}

impl Default for ExportConfig {
    /// Daily automatic exports into `exports`, as JSON and CSV.
    fn default() -> (c: ExportConfig)
        ensures
            c.export_dir@ == "exports"@,
            c.auto_export,
            c.export_interval == 24 * 60 * 60 * 1000,
            c.formats@ == seq![ExportFormat::JSON, ExportFormat::CSV],
    {
        let mut formats: Vec<ExportFormat> = Vec::new();
        formats.push(ExportFormat::JSON);
        formats.push(ExportFormat::CSV);
        ExportConfig { export_dir: text("exports"), auto_export: true, export_interval: 24 * 60 * 60 * 1000, formats }
    }
}

/// What an export file holds.
#[derive(Debug, Clone, Copy, PartialEq, Eq, Structural)]
pub enum ExportContent {
    ActivitiesJson,
    PomodorosJson,
    ActivitiesCsv,
    PomodorosCsv,
    Workbook,
    MarkdownReport,
}

/// The files one format produces, with their names for time stamp `stamp`.
pub open spec fn files_of(f: ExportFormat, stamp: Seq<char>) -> Seq<(ExportContent, Seq<char>)> {
    match f {
        ExportFormat::JSON => seq![
            (ExportContent::ActivitiesJson, "activities_"@ + stamp + ".json"@),
            (ExportContent::PomodorosJson, "pomodoros_"@ + stamp + ".json"@),
        ],
        ExportFormat::CSV => seq![
            (ExportContent::ActivitiesCsv, "activities_"@ + stamp + ".csv"@),
            (ExportContent::PomodorosCsv, "pomodoros_"@ + stamp + ".csv"@),
        ],
        ExportFormat::Excel => seq![(ExportContent::Workbook, "timetracker_"@ + stamp + ".xlsx"@)],
        ExportFormat::Markdown => seq![(ExportContent::MarkdownReport, "timetracker_"@ + stamp + ".md"@)],
    }
}

/// The files of all formats, in the order of the formats.
pub open spec fn export_plan_of(formats: Seq<ExportFormat>, stamp: Seq<char>) -> Seq<(ExportContent, Seq<char>)>
    decreases formats.len(),
{
    if formats.len() == 0 {
        seq![]
    } else {
        export_plan_of(formats.drop_last(), stamp) + files_of(formats.last(), stamp)
    }
}

/// The plan as plain text.
pub open spec fn plan_view(v: Seq<(ExportContent, String)>) -> Seq<(ExportContent, Seq<char>)> {
    v.map_values(|p: (ExportContent, String)| (p.0, p.1@))
}

fn named(prefix: &str, stamp: &str, suffix: &str) -> (s: String)
    ensures
        s@ == prefix@ + stamp@ + suffix@,
{
    let mut out: Vec<char> = Vec::new();
    push_str(&mut out, prefix);
    push_str(&mut out, stamp);
    push_str(&mut out, suffix);
    assert(out@ =~= prefix@ + stamp@ + suffix@);
    string_of(&out)
}

/// The files an export writes for `formats` at time stamp `stamp`: each
/// format's files in the order of the formats.
pub fn export_plan(formats: &Vec<ExportFormat>, stamp: &str) -> (r: Vec<(ExportContent, String)>)
    ensures
        plan_view(r@) == export_plan_of(formats@, stamp@),
{
    let mut out: Vec<(ExportContent, String)> = Vec::new();
    let n = formats.len();
    let mut i: usize = 0;
    while i < n
        invariant
            n == formats@.len(),
            i <= n,
            plan_view(out@) == export_plan_of(formats@.take(i as int), stamp@),
        decreases n - i,
    {
        proof {
            assert(formats@.take(i + 1).drop_last() =~= formats@.take(i as int));
        }
        let ghost before = out@;
        match formats[i] {
            ExportFormat::JSON => {
                out.push((ExportContent::ActivitiesJson, named("activities_", stamp, ".json")));
                out.push((ExportContent::PomodorosJson, named("pomodoros_", stamp, ".json")));
            },
            ExportFormat::CSV => {
                out.push((ExportContent::ActivitiesCsv, named("activities_", stamp, ".csv")));
                out.push((ExportContent::PomodorosCsv, named("pomodoros_", stamp, ".csv")));
            },
            ExportFormat::Excel => {
                out.push((ExportContent::Workbook, named("timetracker_", stamp, ".xlsx")));
            },
            ExportFormat::Markdown => {
                out.push((ExportContent::MarkdownReport, named("timetracker_", stamp, ".md")));
            },
        }
        assert(plan_view(out@) =~= plan_view(before) + files_of(formats@[i as int], stamp@));
        i = i + 1;
    }
    assert(formats@.take(n as int) =~= formats@);
    out
}

/// The time stamp an export made at `now` carries in its file names: the
/// local time as `%Y%m%d_%H%M%S`.
pub fn export_stamp(now: i64) -> (s: String)
    ensures
        clock::stamp_chars(s@),
        clock::local_text_of(now as int, "%Y%m%d_%H%M%S"@, s@),
{
    clock::local_format(now, "%Y%m%d_%H%M%S")
}

/// The export plugin: its settings and the time of its last export (a
/// millisecond timestamp), if any.
pub struct ExportPlugin {
    config: ExportConfig,
    last_export: Option<i64>,
}

impl ExportPlugin {
    pub closed spec fn spec_config(&self) -> ExportConfig {
        self.config
    }

    pub closed spec fn spec_last_export(&self) -> Option<i64> {
        self.last_export
    }

    /// A plugin with the default settings that has not exported yet.
    pub fn new() -> (p: ExportPlugin)
        ensures
            p.spec_last_export() is None,
            p.spec_config().export_dir@ == "exports"@,
            p.spec_config().auto_export,
            p.spec_config().export_interval == 24 * 60 * 60 * 1000,
            p.spec_config().formats@ == seq![ExportFormat::JSON, ExportFormat::CSV],
    {
        ExportPlugin { config: ExportConfig::default(), last_export: None }
    }

    /// The settings in use.
    pub fn config(&self) -> (c: &ExportConfig)
        ensures
            *c == self.spec_config(),
    {
        &self.config
    }

    /// When the last export was made.
    pub fn last_export(&self) -> (t: Option<i64>)
        ensures
            t == self.spec_last_export(),
    {
        self.last_export
    }

    /// The files an export at `now` writes: the plan of the configured
    /// formats, stamped with the local time of `now`.
    pub fn export_files(&self, now: i64) -> (r: Vec<(ExportContent, String)>)
        ensures
            exists|stamp: Seq<char>| plan_view(r@) == export_plan_of(self.spec_config().formats@, stamp)
                && #[trigger] clock::local_text_of(now as int, "%Y%m%d_%H%M%S"@, stamp),
    {
        let stamp = export_stamp(now);
        export_plan(&self.config.formats, &stamp)
    }

    /// Records an export made at `now`, once its files are written.
    pub fn record_export(&mut self, now: i64)
        ensures
            final(self).spec_last_export() == Some(now),
            final(self).spec_config() == old(self).spec_config(),
    {
        self.last_export = Some(now);
    }

    /// Whether an automatic export is due at `now`: automatic exports are on
    /// and none was made, or the interval has passed since the last one; a
    /// last export later than `now` is an error.
    pub fn auto_export_due(&self, now: i64) -> (r: Result<bool, AppError>)
        ensures
            !self.spec_config().auto_export ==> r matches Ok(false),
            self.spec_config().auto_export && (self.spec_last_export() matches Some(t) && t > now)
                ==> (r matches Err(AppError::InvalidOperation(_))),
            self.spec_config().auto_export && !(self.spec_last_export() matches Some(t) && t > now) ==> (r matches Ok(b)
                && b == crate::backup::periodic_due(true, self.spec_last_export(), now, self.spec_config().export_interval)),
    {
        crate::backup::run_due(self.config.auto_export, self.last_export, now, self.config.export_interval)
    }
}

/// How `Debug` writes a `std::time::Duration` of the given milliseconds (for
/// example `1.5s` or `3600s`). Deterministic in the value.
pub uninterp spec fn duration_debug_text(ms: nat) -> Seq<char>;

/// `format!("{:?}", Duration::from_millis(ms))`.
#[verifier::external_body]
pub(crate) fn duration_debug(ms: u64) -> (s: String)
    ensures
        s@ == duration_debug_text(ms as nat),
{
    format!("{:?}", std::time::Duration::from_millis(ms))
}

/// The head of the activity table.
pub open spec fn activities_head() -> Seq<char> {
    "# Activity Report\n\n## Activities\n\n| Time | Application | Window | Duration | Category | Productive |\n|------|-------------|---------|-----------|-----------|------------|\n"@
}

/// The head of the session table.
pub open spec fn sessions_head() -> Seq<char> {
    "\n## Pomodoro Sessions\n\n| Time | Duration | Status | Notes |\n|------|-----------|--------|--------|\n"@
}

/// A text, or `N/A` when absent.
pub open spec fn or_na(t: Option<String>) -> Seq<char> {
    match t {
        Some(s) => s@,
        None => "N/A"@,
    }
}

/// The table row of an activity, its start given as `time`.
pub open spec fn activity_line(a: Activity, time: Seq<char>) -> Seq<char> {
    "| "@ + time + " | "@ + a.app_name@ + " | "@ + a.window_title@ + " | "@ + duration_debug_text(a.duration as nat)
        + " | "@ + or_na(a.category) + " | "@ + (if a.is_productive { "true"@ } else { "false"@ }) + " |\n"@
}

/// The table row of a session, its start given as `time`.
pub open spec fn session_line(s: PomodoroSession, time: Seq<char>) -> Seq<char> {
    "| "@ + time + " | "@ + duration_debug_text(s.duration as nat) + " | "@ + status_text(s.status) + " | "@ + or_na(s.notes)
        + " |\n"@
}

/// The activity rows, each with its start time text.
pub open spec fn activity_lines(acts: Seq<Activity>, times: Seq<Seq<char>>) -> Seq<char>
    decreases acts.len(),
{
    if acts.len() == 0 {
        seq![]
    } else {
        activity_lines(acts.drop_last(), times) + activity_line(acts.last(), times[acts.len() - 1])
    }
}

/// The session rows, each with its start time text.
pub open spec fn session_lines(s: Seq<PomodoroSession>, times: Seq<Seq<char>>) -> Seq<char>
    decreases s.len(),
{
    if s.len() == 0 {
        seq![]
    } else {
        session_lines(s.drop_last(), times) + session_line(s.last(), times[s.len() - 1])
    }
}

pub proof fn lemma_activity_lines_prefix(acts: Seq<Activity>, times: Seq<Seq<char>>, t2: Seq<Seq<char>>)
    requires
        times.len() >= acts.len(),
        t2.len() >= acts.len(),
        forall|k: int| 0 <= k < acts.len() ==> times[k] == t2[k],
    ensures
        activity_lines(acts, times) == activity_lines(acts, t2),
    decreases acts.len(),
{
    if acts.len() > 0 {
        lemma_activity_lines_prefix(acts.drop_last(), times, t2);
    }
}

pub proof fn lemma_session_lines_prefix(s: Seq<PomodoroSession>, times: Seq<Seq<char>>, t2: Seq<Seq<char>>)
    requires
        times.len() >= s.len(),
        t2.len() >= s.len(),
        forall|k: int| 0 <= k < s.len() ==> times[k] == t2[k],
    ensures
        session_lines(s, times) == session_lines(s, t2),
    decreases s.len(),
{
    if s.len() > 0 {
        lemma_session_lines_prefix(s.drop_last(), times, t2);
    }
}

fn push_opt_or_na(out: &mut Vec<char>, t: &Option<String>)
    ensures
        final(out)@ == old(out)@ + or_na(*t),
{
    match t {
        Some(s) => push_str(out, s.as_str()),
        None => push_str(out, "N/A"),
    }
}

fn push_status(out: &mut Vec<char>, s: &PomodoroSession)
    ensures
        final(out)@ == old(out)@ + status_text(s.status),
{
    let t = crate::export::status_string(s.status);
    push_str(out, t.as_str());
}

fn push_activity_line(out: &mut Vec<char>, a: &Activity, time: &String)
    ensures
        final(out)@ == old(out)@ + activity_line(*a, time@),
{
    push_str(out, "| ");
    push_str(out, time.as_str());
    push_str(out, " | ");
    push_str(out, a.app_name.as_str());
    push_str(out, " | ");
    push_str(out, a.window_title.as_str());
    push_str(out, " | ");
    let d = duration_debug(a.duration);
    push_str(out, d.as_str());
    push_str(out, " | ");
    push_opt_or_na(out, &a.category);
    push_str(out, " | ");
    push_str(out, if a.is_productive { "true" } else { "false" });
    push_str(out, " |\n");
    assert(final(out)@ =~= old(out)@ + activity_line(*a, time@));
}

fn push_session_line(out: &mut Vec<char>, s: &PomodoroSession, time: &String)
    ensures
        final(out)@ == old(out)@ + session_line(*s, time@),
{
    push_str(out, "| ");
    push_str(out, time.as_str());
    push_str(out, " | ");
    let d = duration_debug(s.duration);
    push_str(out, d.as_str());
    push_str(out, " | ");
    push_status(out, s);
    push_str(out, " | ");
    push_opt_or_na(out, &s.notes);
    push_str(out, " |\n");
    assert(final(out)@ =~= old(out)@ + session_line(*s, time@));
}

/// The Markdown report of the export plugin: a table of the activities and a
/// table of the sessions, start times in the local zone as `%Y-%m-%d %H:%M:%S`.
pub fn markdown_report(activities: &Vec<Activity>, pomodoros: &Vec<PomodoroSession>) -> (r: String)
    ensures
        exists|at: Seq<Seq<char>>, pt: Seq<Seq<char>>| {
            &&& at.len() == activities@.len() && pt.len() == pomodoros@.len()
            &&& r@ == activities_head() + activity_lines(activities@, at) + sessions_head() + session_lines(pomodoros@, pt)
            &&& forall|k: int| 0 <= k < at.len() ==> clock::local_text_of(activities@[k].start_time as int, "%Y-%m-%d %H:%M:%S"@, #[trigger] at[k])
            &&& forall|k: int| 0 <= k < pt.len() ==> clock::local_text_of(pomodoros@[k].start_time as int, "%Y-%m-%d %H:%M:%S"@, #[trigger] pt[k])
        },
{
    let mut out: Vec<char> = Vec::new();
    push_str(&mut out, "# Activity Report\n\n## Activities\n\n| Time | Application | Window | Duration | Category | Productive |\n|------|-------------|---------|-----------|-----------|------------|\n");
    let ghost mut at: Seq<Seq<char>> = seq![];
    let n = activities.len();
    let mut i: usize = 0;
    assert(out@ =~= activities_head() + activity_lines(activities@.take(0), at));
    while i < n
        invariant
            n == activities@.len(),
            i <= n,
            at.len() == i,
            out@ == activities_head() + activity_lines(activities@.take(i as int), at),
            forall|k: int| 0 <= k < at.len() ==> clock::local_text_of(activities@[k].start_time as int, "%Y-%m-%d %H:%M:%S"@, #[trigger] at[k]),
        decreases n - i,
    {
        let time = clock::local_format(activities[i].start_time, "%Y-%m-%d %H:%M:%S");
        let ghost before = out@;
        push_activity_line(&mut out, &activities[i], &time);
        proof {
            let at2 = at.push(time@);
            assert(activities@.take(i + 1).drop_last() =~= activities@.take(i as int));
            lemma_activity_lines_prefix(activities@.take(i as int), at, at2);
            assert(activity_lines(activities@.take(i + 1), at2) == activity_lines(activities@.take(i as int), at2)
                + activity_line(activities@[i as int], time@));
            assert(out@ =~= activities_head() + activity_lines(activities@.take(i + 1), at2));
            at = at2;
        }
        i = i + 1;
    }
    assert(activities@.take(n as int) =~= activities@);
    push_str(&mut out, "\n## Pomodoro Sessions\n\n| Time | Duration | Status | Notes |\n|------|-----------|--------|--------|\n");
    let ghost mid = out@;
    assert(mid == activities_head() + activity_lines(activities@, at) + sessions_head());
    let ghost mut pt: Seq<Seq<char>> = seq![];
    let m = pomodoros.len();
    let mut j: usize = 0;
    assert(out@ =~= mid + session_lines(pomodoros@.take(0), pt));
    while j < m
        invariant
            m == pomodoros@.len(),
            j <= m,
            pt.len() == j,
            out@ == mid + session_lines(pomodoros@.take(j as int), pt),
            forall|k: int| 0 <= k < pt.len() ==> clock::local_text_of(pomodoros@[k].start_time as int, "%Y-%m-%d %H:%M:%S"@, #[trigger] pt[k]),
        decreases m - j,
    {
        let time = clock::local_format(pomodoros[j].start_time, "%Y-%m-%d %H:%M:%S");
        push_session_line(&mut out, &pomodoros[j], &time);
        proof {
            let pt2 = pt.push(time@);
            assert(pomodoros@.take(j + 1).drop_last() =~= pomodoros@.take(j as int));
            lemma_session_lines_prefix(pomodoros@.take(j as int), pt, pt2);
            assert(session_lines(pomodoros@.take(j + 1), pt2) == session_lines(pomodoros@.take(j as int), pt2)
                + session_line(pomodoros@[j as int], time@));
            assert(out@ =~= mid + session_lines(pomodoros@.take(j + 1), pt2));
            pt = pt2;
        }
        j = j + 1;
    }
    assert(pomodoros@.take(m as int) =~= pomodoros@);
    assert(out@ =~= activities_head() + activity_lines(activities@, at) + sessions_head() + session_lines(pomodoros@, pt));
    string_of(&out)
}

} // verus!
