use vstd::prelude::*;
use crate::error::text;
use crate::grouping::{self, group_sum, keys_unique, tally, text_groups};

verus! {

/// A tracked activity; times are millisecond timestamps, `duration` is in
/// milliseconds.
#[derive(Debug)]
pub struct Activity {
    pub id: Option<i64>,
    pub name: String,
    pub start_time: i64,
    pub end_time: Option<i64>,
    pub project_id: Option<i64>,
    pub description: Option<String>,
    pub duration: u64,
    pub category: Option<String>,
    pub is_productive: bool,
    pub app_name: String,
    pub window_title: String,
}

pub fn copy_opt_string(s: &Option<String>) -> (r: Option<String>)
    ensures
        r == *s,
{
    match s {
        Some(t) => Some(t.clone()),
        None => None,
    }
}

impl Activity {
    /// A field-for-field copy.
    pub fn duplicate(&self) -> (r: Activity)
        ensures
            r == *self,
    {
        Activity {
            id: self.id,
            name: self.name.clone(),
            start_time: self.start_time,
            end_time: self.end_time,
            project_id: self.project_id,
            description: copy_opt_string(&self.description),
            duration: self.duration,
            category: copy_opt_string(&self.category),
            is_productive: self.is_productive,
            app_name: self.app_name.clone(),
            window_title: self.window_title.clone(),
        }
    }
}

/// A project work is attributed to; times are millisecond timestamps.
#[derive(Debug)]
pub struct Project {
    pub id: Option<i64>,
    pub name: String,
    pub description: Option<String>,
    pub created_at: i64,
    pub updated_at: i64,
}

impl Project {
    /// A project not yet stored, created and updated at `now`.
    pub fn new_at(name: String, description: Option<String>, now: i64) -> (p: Project)
        ensures
            p.id is None,
            p.name == name,
            p.description == description,
            p.created_at == now,
            p.updated_at == now,
    {
        Project { id: None, name, description, created_at: now, updated_at: now }
    }

    /// A project not yet stored, created and updated now.
    pub fn new(name: String, description: Option<String>) -> (p: Project)
        ensures
            p.id is None,
            p.name == name,
            p.description == description,
            p.created_at == p.updated_at,
    {
        let now = crate::clock::current_time_millis();
        Project::new_at(name, description, now)
    }

    /// The text shown for a project: its name.
    pub fn display_name(&self) -> (s: &String)
        ensures
            s == &self.name,
    {
        &self.name
    }
}

/// What a pomodoro session is doing or how it ended.
#[derive(Debug, Clone, Copy, PartialEq, Eq, Structural)]
pub enum PomodoroStatus {
    Work,
    ShortBreak,
    LongBreak,
    Completed,
    Interrupted,
}

/// A recorded pomodoro session; times are millisecond timestamps, `duration`
/// is in milliseconds.
#[derive(Debug)]
pub struct PomodoroSession {
    pub id: Option<i64>,
    pub start_time: i64,
    pub end_time: Option<i64>,
    pub duration: u64,
    pub status: PomodoroStatus,
    pub project_id: Option<i64>,
    pub notes: Option<String>,
}

impl PomodoroSession {
    /// A field-for-field copy.
    pub fn duplicate(&self) -> (r: PomodoroSession)
        ensures
            r == *self,
    {
        PomodoroSession {
            id: self.id,
            start_time: self.start_time,
            end_time: self.end_time,
            duration: self.duration,
            status: self.status,
            project_id: self.project_id,
            notes: copy_opt_string(&self.notes),
        }
    }
}

/// A label with a colour.
#[derive(Debug, Clone)]
pub struct Tag {
    pub id: Option<i64>,
    pub name: String,
    pub color: String,
}

/// Formats the layered services export to.
#[derive(Debug, Clone, Copy, PartialEq, Eq, Structural)]
pub enum ExportFormat {
    CSV,
    JSON,
    Excel,
}

/// Total time of the activities, in milliseconds.
pub open spec fn total_time(acts: Seq<Activity>) -> nat
    decreases acts.len(),
{
    if acts.len() == 0 {
        0
    } else {
        total_time(acts.drop_last()) + acts.last().duration as nat
    }
}

/// Time of the productive activities, in milliseconds.
pub open spec fn productive_time(acts: Seq<Activity>) -> nat
    decreases acts.len(),
{
    if acts.len() == 0 {
        0
    } else {
        productive_time(acts.drop_last()) + if acts.last().is_productive { acts.last().duration as nat } else { 0 }
    }
}

/// The key an activity is grouped under by category: its category, or
/// `未分类` ("uncategorised") when it has none.
pub open spec fn category_key(a: Activity) -> Seq<char> {
    match a.category {
        Some(c) => c@,
        None => "未分类"@,
    }
}

/// Time per category, in order of first appearance.
pub open spec fn category_time(acts: Seq<Activity>) -> Seq<(Seq<char>, nat)>
    decreases acts.len(),
{
    if acts.len() == 0 {
        seq![]
    } else {
        tally(category_time(acts.drop_last()), category_key(acts.last()), acts.last().duration as nat)
    }
}

/// Productive time never exceeds the total time.
pub proof fn lemma_productive_le_total(acts: Seq<Activity>)
    ensures
        productive_time(acts) <= total_time(acts),
    decreases acts.len(),
{
    if acts.len() > 0 {
        lemma_productive_le_total(acts.drop_last());
    }
}

pub proof fn lemma_total_prefix(acts: Seq<Activity>, i: int)
    requires
        0 <= i <= acts.len(),
    ensures
        total_time(acts.take(i)) <= total_time(acts),
    decreases acts.len() - i,
{
    if i < acts.len() {
        lemma_total_prefix(acts, i + 1);
        assert(acts.take(i + 1).drop_last() =~= acts.take(i));
    } else {
        assert(acts.take(i) =~= acts);
    }
}

/// The time per category lists each category once and adds up to the total
/// time.
pub proof fn lemma_category_time(acts: Seq<Activity>)
    ensures
        keys_unique(category_time(acts)),
        group_sum(category_time(acts)) == total_time(acts),
    decreases acts.len(),
{
    if acts.len() > 0 {
        lemma_category_time(acts.drop_last());
        grouping::lemma_tally(category_time(acts.drop_last()), category_key(acts.last()), acts.last().duration as nat);
    }
}

/// Total and productive time of the activities (the numbers behind the
/// productivity score, which is their ratio).
pub fn productivity_totals(activities: &Vec<Activity>) -> (r: (u64, u64))
    requires
        total_time(activities@) <= u64::MAX,
    ensures
        r.0 == total_time(activities@),
        r.1 == productive_time(activities@),
{
    let n = activities.len();
    let mut total: u64 = 0;
    let mut productive: u64 = 0;
    let mut i: usize = 0;
    while i < n
        invariant
            n == activities@.len(),
            i <= n,
            total_time(activities@) <= u64::MAX,
            total == total_time(activities@.take(i as int)),
            productive == productive_time(activities@.take(i as int)),
        decreases n - i,
    {
        proof {
            assert(activities@.take(i + 1).drop_last() =~= activities@.take(i as int));
            lemma_total_prefix(activities@, i + 1);
            lemma_productive_le_total(activities@.take(i + 1));
        }
        let a = &activities[i];
        total = total + a.duration;
        if a.is_productive {
            productive = productive + a.duration;
        }
        i = i + 1;
    }
    assert(activities@.take(n as int) =~= activities@);
    (total, productive)
}

/// The total time of the activities, or `None` where it does not fit in a
/// `u64`.
pub fn checked_total_time(activities: &Vec<Activity>) -> (r: Option<u64>)
    ensures
        total_time(activities@) <= u64::MAX ==> r == Some(total_time(activities@) as u64),
        total_time(activities@) > u64::MAX ==> r is None,
{
    let n = activities.len();
    let mut total: u64 = 0;
    let mut i: usize = 0;
    while i < n
        invariant
            n == activities@.len(),
            i <= n,
            total == total_time(activities@.take(i as int)),
        decreases n - i,
    {
        proof {
            assert(activities@.take(i + 1).drop_last() =~= activities@.take(i as int));
            lemma_total_prefix(activities@, i + 1);
        }
        let d = activities[i].duration;
        if d > u64::MAX - total {
            return None;
        }
        total = total + d;
        i = i + 1;
    }
    assert(activities@.take(n as int) =~= activities@);
    Some(total)
}

/// Time per category (in order of first appearance) and the total time; each
/// category's share is its time over the total.
pub fn category_totals(activities: &Vec<Activity>) -> (r: (Vec<(String, u64)>, u64))
    requires
        total_time(activities@) <= u64::MAX,
    ensures
        text_groups(r.0@) == category_time(activities@),
        r.1 == total_time(activities@),
{
    let n = activities.len();
    let mut groups: Vec<(String, u64)> = Vec::new();
    let mut total: u64 = 0;
    let mut i: usize = 0;
    while i < n
        invariant
            n == activities@.len(),
            i <= n,
            total_time(activities@) <= u64::MAX,
            total == total_time(activities@.take(i as int)),
            text_groups(groups@) == category_time(activities@.take(i as int)),
        decreases n - i,
    {
        proof {
            assert(activities@.take(i + 1).drop_last() =~= activities@.take(i as int));
            lemma_total_prefix(activities@, i + 1);
            lemma_category_time(activities@.take(i as int));
        }
        let a = &activities[i];
        let key = match &a.category {
            Some(c) => c.clone(),
            None => text("未分类"),
        };
        grouping::add_text(&mut groups, &key, a.duration);
        total = total + a.duration;
        i = i + 1;
    }
    assert(activities@.take(n as int) =~= activities@);
    (groups, total)
}

/// Counts behind the pomodoro statistics: sessions, completed sessions, total
/// time and average time per session (milliseconds, rounded down; zero with
/// no sessions). The completion rate is `completed_sessions / total_sessions`.
#[derive(Debug, Clone, Copy)]
pub struct SessionCounts {
    pub total_sessions: u64,
    pub completed_sessions: u64,
    pub total_time: u64,
    pub average_duration: u64,
}

/// Number of completed sessions.
pub open spec fn completed_count(s: Seq<PomodoroSession>) -> nat
    decreases s.len(),
{
    if s.len() == 0 {
        0
    } else {
        completed_count(s.drop_last()) + if s.last().status is Completed { 1nat } else { 0nat }
    }
}

/// Total time of the sessions, in milliseconds.
pub open spec fn session_time(s: Seq<PomodoroSession>) -> nat
    decreases s.len(),
{
    if s.len() == 0 {
        0
    } else {
        session_time(s.drop_last()) + s.last().duration as nat
    }
}

pub proof fn lemma_session_prefix(s: Seq<PomodoroSession>, i: int)
    requires
        0 <= i <= s.len(),
    ensures
        session_time(s.take(i)) <= session_time(s),
        completed_count(s.take(i)) <= i,
    decreases s.len() - i,
{
    if i < s.len() {
        lemma_session_prefix(s, i + 1);
        assert(s.take(i + 1).drop_last() =~= s.take(i));
    } else {
        assert(s.take(i) =~= s);
    }
    lemma_completed_le_len(s.take(i));
}

pub proof fn lemma_completed_le_len(s: Seq<PomodoroSession>)
    ensures
        completed_count(s) <= s.len(),
    decreases s.len(),
{
    if s.len() > 0 {
        lemma_completed_le_len(s.drop_last());
    }
}

/// Number of completed sessions.
pub fn completed_sessions(sessions: &Vec<PomodoroSession>) -> (c: u64)
    ensures
        c == completed_count(sessions@),
{
    let n = sessions.len();
    let mut completed: u64 = 0;
    let mut i: usize = 0;
    while i < n
        invariant
            n == sessions@.len(),
            i <= n,
            completed == completed_count(sessions@.take(i as int)),
            completed <= i,
        decreases n - i,
    {
        proof {
            assert(sessions@.take(i + 1).drop_last() =~= sessions@.take(i as int));
        }
        match sessions[i].status {
            PomodoroStatus::Completed => {
                completed = completed + 1;
            },
            _ => {},
        }
        i = i + 1;
    }
    assert(sessions@.take(n as int) =~= sessions@);
    completed
}

/// Counts, total and average time of the sessions.
pub fn session_counts(sessions: &Vec<PomodoroSession>) -> (c: SessionCounts)
    requires
        session_time(sessions@) <= u64::MAX,
    ensures
        c.total_sessions == sessions@.len(),
        c.completed_sessions == completed_count(sessions@),
        c.total_time == session_time(sessions@),
        c.average_duration == if sessions@.len() > 0 { session_time(sessions@) / sessions@.len() } else { 0 },
{
    let n = sessions.len();
    let mut completed: u64 = 0;
    let mut total: u64 = 0;
    let mut i: usize = 0;
    while i < n
        invariant
            n == sessions@.len(),
            i <= n,
            session_time(sessions@) <= u64::MAX,
            total == session_time(sessions@.take(i as int)),
            completed == completed_count(sessions@.take(i as int)),
            completed <= i,
        decreases n - i,
    {
        proof {
            assert(sessions@.take(i + 1).drop_last() =~= sessions@.take(i as int));
            lemma_session_prefix(sessions@, i + 1);
        }
        let s = &sessions[i];
        total = total + s.duration;
        match s.status {
            PomodoroStatus::Completed => {
                completed = completed + 1;
            },
            _ => {},
        }
        i = i + 1;
    }
    assert(sessions@.take(n as int) =~= sessions@);
    let average = if n > 0 { total / (n as u64) } else { 0 };
    SessionCounts { total_sessions: n as u64, completed_sessions: completed, total_time: total, average_duration: average }
}

/// A project with the work attributed to it: total activity time
/// (milliseconds), number of activities and of pomodoro sessions.
#[derive(Debug)]
pub struct ProjectSummary {
    pub project_id: Option<i64>,
    pub project_name: String,
    pub total_time: u64,
    pub activities_count: u64,
    pub pomodoros_count: u64,
}

/// Time of the activities attributed to `project`.
pub open spec fn project_time(acts: Seq<Activity>, project: Option<i64>) -> nat
    decreases acts.len(),
{
    if acts.len() == 0 {
        0
    } else {
        project_time(acts.drop_last(), project) + if acts.last().project_id == project { acts.last().duration as nat } else { 0 }
    }
}

/// Number of activities attributed to `project`.
pub open spec fn project_activities(acts: Seq<Activity>, project: Option<i64>) -> nat
    decreases acts.len(),
{
    if acts.len() == 0 {
        0
    } else {
        project_activities(acts.drop_last(), project) + if acts.last().project_id == project { 1nat } else { 0nat }
    }
}

/// Number of sessions attributed to `project`.
pub open spec fn project_sessions(s: Seq<PomodoroSession>, project: Option<i64>) -> nat
    decreases s.len(),
{
    if s.len() == 0 {
        0
    } else {
        project_sessions(s.drop_last(), project) + if s.last().project_id == project { 1nat } else { 0nat }
    }
}

/// A project's session count is the number of sessions that carry its id,
/// whatever their status: it is the length of the sessions filtered by
/// project, and adding any session with that id raises it by exactly one
/// while adding one of another project leaves it unchanged.
pub proof fn law_project_sessions_count(s: Seq<PomodoroSession>, project: Option<i64>, x: PomodoroSession)
    ensures
        project_sessions(s, project) == s.filter(|e: PomodoroSession| e.project_id == project).len(),
        x.project_id == project ==> project_sessions(s.push(x), project) == project_sessions(s, project) + 1,
        x.project_id != project ==> project_sessions(s.push(x), project) == project_sessions(s, project),
        project_sessions(s, project) <= s.len(),
    decreases s.len(),
{
    reveal(Seq::filter);
    assert(s.push(x).drop_last() =~= s);
    if s.len() > 0 {
        law_project_sessions_count(s.drop_last(), project, x);
    }
}

pub proof fn lemma_project_bounds(acts: Seq<Activity>, project: Option<i64>)
    ensures
        project_time(acts, project) <= total_time(acts),
        project_activities(acts, project) <= acts.len(),
    decreases acts.len(),
{
    if acts.len() > 0 {
        lemma_project_bounds(acts.drop_last(), project);
    }
}

pub proof fn lemma_project_sessions_bound(s: Seq<PomodoroSession>, project: Option<i64>)
    ensures
        project_sessions(s, project) <= s.len(),
    decreases s.len(),
{
    if s.len() > 0 {
        lemma_project_sessions_bound(s.drop_last(), project);
    }
}

/// The summary of one project over the given activities and sessions: the
/// work whose project id equals the project's id.
pub fn summarize_project(
    project: &Project,
    activities: &Vec<Activity>,
    pomodoros: &Vec<PomodoroSession>,
) -> (r: ProjectSummary)
    requires
        total_time(activities@) <= u64::MAX,
    ensures
        r.project_id == project.id,
        r.project_name == project.name,
        r.total_time == project_time(activities@, project.id),
        r.activities_count == project_activities(activities@, project.id),
        r.pomodoros_count == project_sessions(pomodoros@, project.id),
{
    let n = activities.len();
    let mut time: u64 = 0;
    let mut count: u64 = 0;
    let mut i: usize = 0;
    while i < n
        invariant
            n == activities@.len(),
            i <= n,
            total_time(activities@) <= u64::MAX,
            time == project_time(activities@.take(i as int), project.id),
            count == project_activities(activities@.take(i as int), project.id),
        decreases n - i,
    {
        proof {
            assert(activities@.take(i + 1).drop_last() =~= activities@.take(i as int));
            lemma_total_prefix(activities@, i + 1);
            lemma_project_bounds(activities@.take(i + 1), project.id);
        }
        if activities[i].project_id == project.id {
            time = time + activities[i].duration;
            count = count + 1;
        }
        i = i + 1;
    }
    assert(activities@.take(n as int) =~= activities@);
    let m = pomodoros.len();
    let mut sessions: u64 = 0;
    let mut j: usize = 0;
    while j < m
        invariant
            m == pomodoros@.len(),
            j <= m,
            sessions == project_sessions(pomodoros@.take(j as int), project.id),
        decreases m - j,
    {
        proof {
            assert(pomodoros@.take(j + 1).drop_last() =~= pomodoros@.take(j as int));
            lemma_project_sessions_bound(pomodoros@.take(j + 1), project.id);
        }
        if pomodoros[j].project_id == project.id {
            sessions = sessions + 1;
        }
        j = j + 1;
    }
    assert(pomodoros@.take(m as int) =~= pomodoros@);
    ProjectSummary {
        project_id: project.id,
        project_name: project.name.clone(),
        total_time: time,
        activities_count: count,
        pomodoros_count: sessions,
    }
}

/// One summary per project, in the order of the projects.
pub fn calculate_project_summaries(
    projects: &Vec<Project>,
    activities: &Vec<Activity>,
    pomodoros: &Vec<PomodoroSession>,
) -> (r: Vec<ProjectSummary>)
    requires
        total_time(activities@) <= u64::MAX,
    ensures
        r@.len() == projects@.len(),
        forall|k: int| 0 <= k < projects@.len() ==> {
            &&& (#[trigger] r@[k]).project_id == projects@[k].id
            &&& r@[k].project_name == projects@[k].name
            &&& r@[k].total_time == project_time(activities@, projects@[k].id)
            &&& r@[k].activities_count == project_activities(activities@, projects@[k].id)
            &&& r@[k].pomodoros_count == project_sessions(pomodoros@, projects@[k].id)
        },
{
    let mut out: Vec<ProjectSummary> = Vec::new();
    let n = projects.len();
    let mut i: usize = 0;
    while i < n
        invariant
            n == projects@.len(),
            i <= n,
            total_time(activities@) <= u64::MAX,
            out@.len() == i,
            forall|k: int| 0 <= k < i ==> {
                &&& (#[trigger] out@[k]).project_id == projects@[k].id
                &&& out@[k].project_name == projects@[k].name
                &&& out@[k].total_time == project_time(activities@, projects@[k].id)
                &&& out@[k].activities_count == project_activities(activities@, projects@[k].id)
                &&& out@[k].pomodoros_count == project_sessions(pomodoros@, projects@[k].id)
            },
        decreases n - i,
    {
        let s = summarize_project(&projects[i], activities, pomodoros);
        out.push(s);
        i = i + 1;
    }
    out
}

} // verus!
