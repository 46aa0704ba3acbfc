use vstd::prelude::*;
use crate::models::{self, Activity, PomodoroSession, Project, ProjectSummary};
use crate::clock;
use crate::error::{text, TimeTrackerError};

verus! {

/// Milliseconds in a day.
pub const DAY_MS: i64 = 86_400_000;

/// The work of one day; `date` is a millisecond timestamp, times are in
/// milliseconds.
#[derive(Debug)]
pub struct DailySummary {
    pub date: i64,
    pub total_time: u64,
    pub productive_time: u64,
    pub activities: Vec<Activity>,
    pub pomodoros: Vec<PomodoroSession>,
    pub projects: Vec<ProjectSummary>,
}

/// The work of seven days from `start_date`.
#[derive(Debug)]
pub struct WeeklySummary {
    pub start_date: i64,
    pub end_date: i64,
    pub total_time: u64,
    pub productive_time: u64,
    pub daily_summaries: Vec<DailySummary>,
    pub projects: Vec<ProjectSummary>,
}

/// The work of the weeks of a month.
#[derive(Debug)]
pub struct MonthlySummary {
    pub month: i64,
    pub total_time: u64,
    pub productive_time: u64,
    pub weekly_summaries: Vec<WeeklySummary>,
    pub projects: Vec<ProjectSummary>,
}

/// The summary of a day from its activities and sessions: total and productive
/// time, and one project summary per project.
pub fn daily_summary(
    date: i64,
    activities: Vec<Activity>,
    pomodoros: Vec<PomodoroSession>,
    projects: &Vec<Project>,
) -> (d: DailySummary)
    requires
        models::total_time(activities@) <= u64::MAX,
    ensures
        d.date == date,
        d.total_time == models::total_time(activities@),
        d.productive_time == models::productive_time(activities@),
        d.activities@ == activities@,
        d.pomodoros@ == pomodoros@,
        d.projects@.len() == projects@.len(),
        forall|k: int| 0 <= k < projects@.len() ==> {
            &&& (#[trigger] d.projects@[k]).project_id == projects@[k].id
            &&& d.projects@[k].total_time == models::project_time(activities@, projects@[k].id)
            &&& d.projects@[k].activities_count == models::project_activities(activities@, projects@[k].id)
            &&& d.projects@[k].pomodoros_count == models::project_sessions(pomodoros@, projects@[k].id)
        },
{
    let (total, productive) = models::productivity_totals(&activities);
    let summaries = models::calculate_project_summaries(projects, &activities, &pomodoros);
    DailySummary {
        date,
        total_time: total,
        productive_time: productive,
        activities,
        pomodoros,
        projects: summaries,
    }
}

/// Sum of the total times of the days.
pub open spec fn days_total(d: Seq<DailySummary>) -> nat
    decreases d.len(),
{
    if d.len() == 0 {
        0
    } else {
        days_total(d.drop_last()) + d.last().total_time as nat
    }
}

/// Sum of the productive times of the days.
pub open spec fn days_productive(d: Seq<DailySummary>) -> nat
    decreases d.len(),
{
    if d.len() == 0 {
        0
    } else {
        days_productive(d.drop_last()) + d.last().productive_time as nat
    }
}

/// Sum of the total times of the weeks.
pub open spec fn weeks_total(w: Seq<WeeklySummary>) -> nat
    decreases w.len(),
{
    if w.len() == 0 {
        0
    } else {
        weeks_total(w.drop_last()) + w.last().total_time as nat
    }
}

/// Sum of the productive times of the weeks.
pub open spec fn weeks_productive(w: Seq<WeeklySummary>) -> nat
    decreases w.len(),
{
    if w.len() == 0 {
        0
    } else {
        weeks_productive(w.drop_last()) + w.last().productive_time as nat
    }
}

pub proof fn lemma_days_prefix(d: Seq<DailySummary>, i: int)
    requires
        0 <= i <= d.len(),
    ensures
        days_total(d.take(i)) <= days_total(d),
        days_productive(d.take(i)) <= days_productive(d),
    decreases d.len() - i,
{
    if i < d.len() {
        lemma_days_prefix(d, i + 1);
        assert(d.take(i + 1).drop_last() =~= d.take(i));
    } else {
        assert(d.take(i) =~= d);
    }
}

pub proof fn lemma_weeks_prefix(w: Seq<WeeklySummary>, i: int)
    requires
        0 <= i <= w.len(),
    ensures
        weeks_total(w.take(i)) <= weeks_total(w),
        weeks_productive(w.take(i)) <= weeks_productive(w),
    decreases w.len() - i,
{
    if i < w.len() {
        lemma_weeks_prefix(w, i + 1);
        assert(w.take(i + 1).drop_last() =~= w.take(i));
    } else {
        assert(w.take(i) =~= w);
    }
}

/// The starts of the seven days of a week beginning at `start`.
pub fn week_day_starts(start: i64) -> (r: Vec<i64>)
    requires
        start + 7 * DAY_MS <= i64::MAX,
    ensures
        r@.len() == 7,
        forall|k: int| 0 <= k < 7 ==> #[trigger] r@[k] == start + k * DAY_MS,
{
    let mut out: Vec<i64> = Vec::new();
    let mut current = start;
    let mut k: usize = 0;
    while k < 7
        invariant
            k <= 7,
            start + 7 * DAY_MS <= i64::MAX,
            current == start + k * DAY_MS,
            out@.len() == k,
            forall|j: int| 0 <= j < k ==> #[trigger] out@[j] == start + j * DAY_MS,
        decreases 7 - k,
    {
        out.push(current);
        current = current + DAY_MS;
        k = k + 1;
    }
    out
}

/// The activities of the days, in order.
pub open spec fn day_activities(d: Seq<DailySummary>) -> Seq<Activity>
    decreases d.len(),
{
    if d.len() == 0 {
        Seq::empty()
    } else {
        day_activities(d.drop_last()) + d.last().activities@
    }
}

/// The sessions of the days, in order.
pub open spec fn day_sessions(d: Seq<DailySummary>) -> Seq<PomodoroSession>
    decreases d.len(),
{
    if d.len() == 0 {
        Seq::empty()
    } else {
        day_sessions(d.drop_last()) + d.last().pomodoros@
    }
}

/// The activities of the weeks' days, in order.
pub open spec fn week_activities(w: Seq<WeeklySummary>) -> Seq<Activity>
    decreases w.len(),
{
    if w.len() == 0 {
        Seq::empty()
    } else {
        week_activities(w.drop_last()) + day_activities(w.last().daily_summaries@)
    }
}

/// The sessions of the weeks' days, in order.
pub open spec fn week_sessions(w: Seq<WeeklySummary>) -> Seq<PomodoroSession>
    decreases w.len(),
{
    if w.len() == 0 {
        Seq::empty()
    } else {
        week_sessions(w.drop_last()) + day_sessions(w.last().daily_summaries@)
    }
}

/// Appends copies of the activities.
fn append_activities(out: &mut Vec<Activity>, acts: &Vec<Activity>)
    ensures
        final(out)@ == old(out)@ + acts@,
{
    let ghost start = out@;
    let n = acts.len();
    let mut i: usize = 0;
    while i < n
        invariant
            n == acts@.len(),
            i <= n,
            out@ == start + acts@.take(i as int),
        decreases n - i,
    {
        out.push(acts[i].duplicate());
        assert(out@ =~= start + acts@.take(i + 1));
        i = i + 1;
    }
    assert(acts@.take(n as int) =~= acts@);
}

/// Appends copies of the sessions.
fn append_sessions(out: &mut Vec<PomodoroSession>, sessions: &Vec<PomodoroSession>)
    ensures
        final(out)@ == old(out)@ + sessions@,
{
    let ghost start = out@;
    let n = sessions.len();
    let mut i: usize = 0;
    while i < n
        invariant
            n == sessions@.len(),
            i <= n,
            out@ == start + sessions@.take(i as int),
        decreases n - i,
    {
        out.push(sessions[i].duplicate());
        assert(out@ =~= start + sessions@.take(i + 1));
        i = i + 1;
    }
    assert(sessions@.take(n as int) =~= sessions@);
}

/// All the activities and sessions of the days, in order.
pub fn collect_days(days: &Vec<DailySummary>) -> (r: (Vec<Activity>, Vec<PomodoroSession>))
    ensures
        r.0@ == day_activities(days@),
        r.1@ == day_sessions(days@),
{
    let mut acts: Vec<Activity> = Vec::new();
    let mut sessions: Vec<PomodoroSession> = Vec::new();
    let n = days.len();
    let mut i: usize = 0;
    while i < n
        invariant
            n == days@.len(),
            i <= n,
            acts@ == day_activities(days@.take(i as int)),
            sessions@ == day_sessions(days@.take(i as int)),
        decreases n - i,
    {
        assert(days@.take(i + 1).drop_last() =~= days@.take(i as int));
        append_activities(&mut acts, &days[i].activities);
        append_sessions(&mut sessions, &days[i].pomodoros);
        i = i + 1;
    }
    assert(days@.take(n as int) =~= days@);
    (acts, sessions)
}

/// All the activities and sessions of the weeks' days, in order.
pub fn collect_weeks(weeks: &Vec<WeeklySummary>) -> (r: (Vec<Activity>, Vec<PomodoroSession>))
    ensures
        r.0@ == week_activities(weeks@),
        r.1@ == week_sessions(weeks@),
{
    let mut acts: Vec<Activity> = Vec::new();
    let mut sessions: Vec<PomodoroSession> = Vec::new();
    let n = weeks.len();
    let mut i: usize = 0;
    while i < n
        invariant
            n == weeks@.len(),
            i <= n,
            acts@ == week_activities(weeks@.take(i as int)),
            sessions@ == week_sessions(weeks@.take(i as int)),
        decreases n - i,
    {
        assert(weeks@.take(i + 1).drop_last() =~= weeks@.take(i as int));
        let (a, s) = collect_days(&weeks[i].daily_summaries);
        append_activities(&mut acts, &a);
        append_sessions(&mut sessions, &s);
        i = i + 1;
    }
    assert(weeks@.take(n as int) =~= weeks@);
    (acts, sessions)
}

/// Each summary belongs to the project at its place, over the given work.
pub open spec fn summaries_of(r: Seq<ProjectSummary>, projects: Seq<Project>, acts: Seq<Activity>, sessions: Seq<PomodoroSession>) -> bool {
    &&& r.len() == projects.len()
    &&& forall|k: int| 0 <= k < projects.len() ==> {
        &&& (#[trigger] r[k]).project_id == projects[k].id
        &&& r[k].project_name == projects[k].name
        &&& r[k].total_time == models::project_time(acts, projects[k].id)
        &&& r[k].activities_count == models::project_activities(acts, projects[k].id)
        &&& r[k].pomodoros_count == models::project_sessions(sessions, projects[k].id)
    }
}

/// The summary of the week from `start`, ending seven days later: the days'
/// totals added up, and one summary per project over all the days' work.
pub fn weekly_summary(start: i64, daily_summaries: Vec<DailySummary>, projects: &Vec<Project>) -> (w: WeeklySummary)
    requires
        start + 7 * DAY_MS <= i64::MAX,
        days_total(daily_summaries@) <= u64::MAX,
        days_productive(daily_summaries@) <= u64::MAX,
        models::total_time(day_activities(daily_summaries@)) <= u64::MAX,
    ensures
        w.start_date == start,
        w.end_date == start + 7 * DAY_MS,
        w.total_time == days_total(daily_summaries@),
        w.productive_time == days_productive(daily_summaries@),
        w.daily_summaries@ == daily_summaries@,
        summaries_of(w.projects@, projects@, day_activities(daily_summaries@), day_sessions(daily_summaries@)),
{
    let n = daily_summaries.len();
    let mut total: u64 = 0;
    let mut productive: u64 = 0;
    let mut i: usize = 0;
    while i < n
        invariant
            n == daily_summaries@.len(),
            i <= n,
            days_total(daily_summaries@) <= u64::MAX,
            days_productive(daily_summaries@) <= u64::MAX,
            total == days_total(daily_summaries@.take(i as int)),
            productive == days_productive(daily_summaries@.take(i as int)),
        decreases n - i,
    {
        proof {
            assert(daily_summaries@.take(i + 1).drop_last() =~= daily_summaries@.take(i as int));
            lemma_days_prefix(daily_summaries@, i + 1);
        }
        total = total + daily_summaries[i].total_time;
        productive = productive + daily_summaries[i].productive_time;
        i = i + 1;
    }
    assert(daily_summaries@.take(n as int) =~= daily_summaries@);
    let (acts, sessions) = collect_days(&daily_summaries);
    let summaries = models::calculate_project_summaries(projects, &acts, &sessions);
    WeeklySummary {
        start_date: start,
        end_date: start + 7 * DAY_MS,
        total_time: total,
        productive_time: productive,
        daily_summaries,
        projects: summaries,
    }
}

/// Gregorian leap years.
pub open spec fn is_leap_year(y: int) -> bool {
    (y % 4 == 0 && y % 100 != 0) || y % 400 == 0
}

/// Days in a month of the Gregorian calendar (months 1..=12).
pub open spec fn month_length(y: int, m: int) -> int {
    if m == 2 {
        if is_leap_year(y) { 29 } else { 28 }
    } else if m == 4 || m == 6 || m == 9 || m == 11 {
        30
    } else {
        31
    }
}

/// Days in month `month` (1..=12) of `year`.
pub fn days_in_month(year: i32, month: u32) -> (d: i64)
    requires
        1 <= month <= 12,
    ensures
        d == month_length(year as int, month as int),
{
    if month == 2 {
        // A shift by a multiple of 400 keeps every remainder the rule asks
        // for and makes the year non-negative.
        let u: u64 = (year as i64 + 2_147_484_000) as u64;
        proof {
            let y = year as int;
            assert(u as int == 400 * 5_368_710 + y);
            vstd::arithmetic::div_mod::lemma_mod_multiples_vanish(5_368_710, y, 400);
            vstd::arithmetic::div_mod::lemma_mod_multiples_vanish(21_474_840, y, 100);
            vstd::arithmetic::div_mod::lemma_mod_multiples_vanish(536_871_000, y, 4);
            assert(u as int == 100 * 21_474_840 + y);
            assert(u as int == 4 * 536_871_000 + y);
        }
        let leap = (u % 4 == 0 && u % 100 != 0) || u % 400 == 0;
        if leap { 29 } else { 28 }
    } else if month == 4 || month == 6 || month == 9 || month == 11 {
        30
    } else {
        31
    }
}

/// Whole days from `first` to `next` (millisecond timestamps), as chrono's
/// `TimeDelta::num_days` counts them: rounded toward zero.
pub open spec fn whole_days_between(first: int, next: int) -> int {
    let diff = next - first;
    if diff >= 0 {
        diff / DAY_MS as int
    } else {
        -((-diff) / DAY_MS as int)
    }
}

/// Whole days from `first` to `next`, rounded toward zero.
pub fn whole_days(first: i64, next: i64) -> (d: i64)
    ensures
        d == whole_days_between(first as int, next as int),
{
    let diff: i128 = (next as i128) - (first as i128);
    if diff >= 0 {
        (diff / (DAY_MS as i128)) as i64
    } else {
        -(((-diff) / (DAY_MS as i128)) as i64)
    }
}

/// `d` is the length of month `month` of `year` as the monthly summary counts
/// it: 31 for December; otherwise the whole days between the local midnights
/// that begin the month and the next, each known to within a day of the
/// same wall time read as UTC.
pub open spec fn month_count(year: int, month: int, d: int) -> bool {
    &&& 1 <= month <= 12
    &&& month == 12 ==> d == 31
    &&& month < 12 ==> exists|a: int, b: int| #[trigger] whole_days_between(a, b) == d
        && -clock::day_ms() < a - clock::civil_ms(year, month, 1, 0, 0, 0) < clock::day_ms()
        && -clock::day_ms() < b - clock::civil_ms(year, month + 1, 1, 0, 0, 0) < clock::day_ms()
}

/// The number of days of the local month in which the moment `start` falls:
/// 31 for December, otherwise the whole days from the local midnight that
/// begins the month to the one that begins the next (so a month in which
/// the clocks go forward counts a day less). An error where chrono cannot
/// place the moment in the local zone, or the zone has no single local
/// midnight at the start of either month.
pub fn month_days_at(start: i64) -> (r: Result<i64, TimeTrackerError>)
    ensures
        r matches Ok(d) ==> 26 <= d <= 32,
        r matches Ok(d) ==> exists|y: i32, m: u32| #[trigger] clock::local_year_month_of(start as int, Some((y, m)))
            && month_count(y as int, m as int, d as int),
        r matches Err(e) ==> (e matches TimeTrackerError::Time(msg) && (msg@ == "Invalid timestamp"@
            || msg@ == "Invalid local time"@)),
        clock::in_written_range(start as int) ==> !(r matches Err(TimeTrackerError::Time(msg)) && msg@
            == "Invalid timestamp"@),
{
    proof {
        reveal_strlit("Invalid timestamp");
        reveal_strlit("Invalid local time");
        assert("Invalid local time"@[8] != "Invalid timestamp"@[8]);
    }
    let found = clock::local_year_month(start);
    match found {
        Some((y, m)) => {
            if m == 12 {
                assert(month_count(y as int, m as int, 31));
                Ok(31)
            } else {
                match crate::cli::local_timestamp(y, m + 1, 1, 0, 0, 0) {
                    Some(b) => match crate::cli::local_timestamp(y, m, 1, 0, 0, 0) {
                        Some(a) => {
                            let d = whole_days(a, b);
                            proof {
                                clock::lemma_month_span(y as int, m as int);
                                let len = month_length(y as int, m as int);
                                assert(clock::civil_ms(y as int, m + 1, 1, 0, 0, 0) - clock::civil_ms(y as int, m as int, 1, 0, 0, 0)
                                    == len * 86_400_000);
                                assert(28 <= len <= 31);
                                assert(month_count(y as int, m as int, d as int));
                            }
                            Ok(d)
                        },
                        None => Err(TimeTrackerError::Time(text("Invalid local time"))),
                    },
                    None => Err(TimeTrackerError::Time(text("Invalid local time"))),
                }
            }
        },
        None => Err(TimeTrackerError::Time(text("Invalid timestamp"))),
    }
}

/// The starts of the weeks that begin within `days` days of `start`: one
/// every seven days.
pub fn month_week_starts(start: i64, days: i64) -> (r: Vec<i64>)
    requires
        1 <= days <= 34,
        start + 35 * DAY_MS <= i64::MAX,
    ensures
        r@.len() == (days + 6) / 7,
        forall|k: int| 0 <= k < r@.len() ==> #[trigger] r@[k] == start + 7 * k * DAY_MS,
{
    let mut out: Vec<i64> = Vec::new();
    let mut current = start;
    let end = start + days * DAY_MS;
    let rounds = days / 7 + 1;
    let mut k: i64 = 0;
    while k < rounds
        invariant
            1 <= days <= 34,
            start + 35 * DAY_MS <= i64::MAX,
            end == start + days * DAY_MS,
            rounds == days / 7 + 1,
            0 <= k <= rounds,
            current == start + 7 * k * DAY_MS,
            out@.len() == if k <= (days + 6) / 7 { k as int } else { (days + 6) / 7 },
            forall|j: int| 0 <= j < out@.len() ==> #[trigger] out@[j] == start + 7 * j * DAY_MS,
        decreases rounds - k,
    {
        if current < end {
            out.push(current);
        }
        current = current + 7 * DAY_MS;
        k = k + 1;
    }
    out
}

/// The summary of a month from the summaries of its weeks: their totals added
/// up, and one summary per project over all the weeks' work.
pub fn monthly_summary(month: i64, weekly_summaries: Vec<WeeklySummary>, projects: &Vec<Project>) -> (m: MonthlySummary)
    requires
        weeks_total(weekly_summaries@) <= u64::MAX,
        weeks_productive(weekly_summaries@) <= u64::MAX,
        models::total_time(week_activities(weekly_summaries@)) <= u64::MAX,
    ensures
        m.month == month,
        m.total_time == weeks_total(weekly_summaries@),
        m.productive_time == weeks_productive(weekly_summaries@),
        m.weekly_summaries@ == weekly_summaries@,
        summaries_of(m.projects@, projects@, week_activities(weekly_summaries@), week_sessions(weekly_summaries@)),
{
    let n = weekly_summaries.len();
    let mut total: u64 = 0;
    let mut productive: u64 = 0;
    let mut i: usize = 0;
    while i < n
        invariant
            n == weekly_summaries@.len(),
            i <= n,
            weeks_total(weekly_summaries@) <= u64::MAX,
            weeks_productive(weekly_summaries@) <= u64::MAX,
            total == weeks_total(weekly_summaries@.take(i as int)),
            productive == weeks_productive(weekly_summaries@.take(i as int)),
        decreases n - i,
    {
        proof {
            assert(weekly_summaries@.take(i + 1).drop_last() =~= weekly_summaries@.take(i as int));
            lemma_weeks_prefix(weekly_summaries@, i + 1);
        }
        total = total + weekly_summaries[i].total_time;
        productive = productive + weekly_summaries[i].productive_time;
        i = i + 1;
    }
    assert(weekly_summaries@.take(n as int) =~= weekly_summaries@);
    let (acts, sessions) = collect_weeks(&weekly_summaries);
    let summaries = models::calculate_project_summaries(projects, &acts, &sessions);
    MonthlySummary { month, total_time: total, productive_time: productive, weekly_summaries, projects: summaries }
}

} // verus!
