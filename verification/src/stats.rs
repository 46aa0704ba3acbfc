use vstd::prelude::*;
use crate::clock;
use crate::error::text;
use crate::grouping::text_groups;
use crate::models::{self, Activity, PomodoroSession};

verus! {

/// Working hours: from `start_hour` up to (not including) `end_hour`, on the
/// given days (1 = Monday ... 7 = Sunday).
#[derive(Debug, Clone)]
pub struct WorkHours {
    pub start_hour: u32,
    pub end_hour: u32,
    pub work_days: Vec<u32>,
}

impl WorkHours {
    /// 9 to 18, Monday to Friday.
    pub fn office_hours() -> (w: WorkHours)
        ensures
            w.start_hour == 9,
            w.end_hour == 18,
            w.work_days@ == seq![1u32, 2u32, 3u32, 4u32, 5u32],
    {
        let mut days: Vec<u32> = Vec::new();
        days.push(1);
        days.push(2);
        days.push(3);
        days.push(4);
        days.push(5);
        WorkHours { start_hour: 9, end_hour: 18, work_days: days }
    }

    /// A moment on `weekday` at `hour` lies within working hours.
    pub open spec fn spec_contains(&self, weekday: u32, hour: u32) -> bool {
        &&& self.work_days@.contains(weekday)
        &&& self.start_hour <= hour < self.end_hour
    }

    /// Whether `weekday` at `hour` lies within working hours.
    pub fn contains(&self, weekday: u32, hour: u32) -> (b: bool)
        ensures
            b == self.spec_contains(weekday, hour),
    {
        let n = self.work_days.len();
        let mut found = false;
        let mut i: usize = 0;
        while i < n
            invariant
                n == self.work_days@.len(),
                i <= n,
                found == self.work_days@.take(i as int).contains(weekday),
            decreases n - i,
        {
            let ghost s = self.work_days@.take(i as int);
            let ghost t = self.work_days@.take(i + 1);
            proof {
                assert(t =~= s.push(self.work_days@[i as int]));
                if t.contains(weekday) {
                    let j = choose|j: int| 0 <= j < t.len() && t[j] == weekday;
                    if j < i {
                        assert(s[j] == weekday);
                    }
                }
                if s.contains(weekday) {
                    let j = choose|j: int| 0 <= j < s.len() && s[j] == weekday;
                    assert(t[j] == weekday);
                }
                if self.work_days@[i as int] == weekday {
                    assert(t[i as int] == weekday);
                }
            }
            if self.work_days[i] == weekday {
                found = true;
            }
            i = i + 1;
        }
        assert(self.work_days@.take(n as int) =~= self.work_days@);
        found && self.start_hour <= hour && hour < self.end_hour
    }
}

/// Whether the moment `time` (a millisecond timestamp) falls within working
/// hours, by its local weekday and hour; `false` where the local time cannot
/// be determined.
pub fn check_work_hours(hours: &WorkHours, time: i64) -> (b: bool)
    ensures
        b ==> exists|d: u32, h: u32| 1 <= d <= 7 && h < 24 && hours.spec_contains(d, h),
        clock::in_written_range(time as int) ==> exists|t: clock::CivilTime| #[trigger] clock::local_reading(time as int, t)
            && b == hours.spec_contains(clock::weekday_number(t) as u32, t.hour as u32),
{
    match clock::local_weekday_hour(time) {
        Some((d, h)) => hours.contains(d, h),
        None => false,
    }
}

/// Whether a new analysis is due at `now`: automatic analysis is on, and either
/// none was made or at least `interval` milliseconds have passed since the
/// last one (a last analysis later than `now` is not due).
pub open spec fn analysis_due(auto_analyze: bool, last: Option<i64>, now: i64, interval: u64) -> bool {
    auto_analyze && match last {
        None => true,
        Some(t) => now >= t && now - t >= interval,
    }
}

/// Decides whether to analyse now.
pub fn should_analyze(auto_analyze: bool, last_analysis: Option<i64>, now: i64, interval: u64) -> (b: bool)
    ensures
        b == analysis_due(auto_analyze, last_analysis, now, interval),
{
    if !auto_analyze {
        return false;
    }
    match last_analysis {
        None => true,
        Some(t) => now >= t && clock::elapsed_ms(t, now) >= interval,
    }
}

/// The figures of a productivity analysis over the last day: times in
/// milliseconds, time per category in order of first appearance, and the
/// number of completed sessions. The score is `productive_time / total_time`.
#[derive(Debug)]
pub struct ProductivityTotals {
    pub period_start: i64,
    pub period_end: i64,
    pub total_time: u64,
    pub productive_time: u64,
    pub activity_breakdown: Vec<(String, u64)>,
    pub completed_pomodoros: u64,
}

/// The integer part of a productivity analysis at `now`: the period is the
/// day before `now`.
pub fn analyze_productivity(activities: &Vec<Activity>, pomodoros: &Vec<PomodoroSession>, now: i64) -> (s: ProductivityTotals)
    requires
        models::total_time(activities@) <= u64::MAX,
        now >= i64::MIN + 86_400_000,
    ensures
        s.period_start == now - 86_400_000,
        s.period_end == now,
        s.total_time == models::total_time(activities@),
        s.productive_time == models::productive_time(activities@),
        text_groups(s.activity_breakdown@) == models::category_time(activities@),
        s.completed_pomodoros == models::completed_count(pomodoros@),
{
    let (total, productive) = models::productivity_totals(activities);
    let (breakdown, _) = models::category_totals(activities);
    let completed = models::completed_sessions(pomodoros);
    ProductivityTotals {
        period_start: now - 86_400_000,
        period_end: now,
        total_time: total,
        productive_time: productive,
        activity_breakdown: breakdown,
        completed_pomodoros: completed,
    }
}

/// The hour (local) of each activity's start and whether it was productive,
/// in order; activities whose hour cannot be determined (outside chrono's
/// range) are left out.
pub fn hourly_samples(activities: &Vec<Activity>) -> (r: Vec<(u32, bool)>)
    ensures
        exists|idx: Seq<int>| #[trigger] sampled_from(idx, r@, activities@) && samples_every_datable(idx, activities@),
{
    let mut out: Vec<(u32, bool)> = Vec::new();
    let ghost mut idx: Seq<int> = Seq::empty();
    let n = activities.len();
    let mut i: usize = 0;
    while i < n
        invariant
            n == activities@.len(),
            i <= n,
            idx.len() == out@.len(),
            forall|k: int| 0 <= k < idx.len() ==> 0 <= #[trigger] idx[k] < i
                && out@[k].0 < 24 && out@[k].1 == activities@[idx[k]].is_productive
                && clock::local_hour_of(activities@[idx[k]].start_time as int, Some(out@[k].0)),
            forall|k1: int, k2: int| 0 <= k1 < k2 < idx.len() ==> idx[k1] < idx[k2],
            forall|j: int| 0 <= j < i && clock::in_written_range(activities@[j].start_time as int)
                ==> #[trigger] sampled_at(idx, j),
        decreases n - i,
    {
        match clock::local_hour(activities[i].start_time) {
            Some(h) => {
                out.push((h, activities[i].is_productive));
                proof {
                    let old_idx = idx;
                    idx = idx.push(i as int);
                    assert(idx[idx.len() - 1] == i);
                    assert forall|j: int| 0 <= j < i + 1 && clock::in_written_range(activities@[j].start_time as int)
                        implies #[trigger] sampled_at(idx, j) by {
                        if j < i {
                            assert(sampled_at(old_idx, j));
                            let k = choose|k: int| 0 <= k < old_idx.len() && old_idx[k] == j;
                            assert(idx[k] == j);
                        } else {
                            assert(idx[idx.len() - 1] == j);
                        }
                    }
                }
            },
            None => {},
        }
        i = i + 1;
    }
    assert(sampled_from(idx, out@, activities@));
    assert(samples_every_datable(idx, activities@));
    out
}

/// Position `j` is among the sampled positions.
pub open spec fn sampled_at(idx: Seq<int>, j: int) -> bool {
    exists|k: int| 0 <= k < idx.len() && idx[k] == j
}

/// Every activity that starts between 1970 and the year 9999 (where chrono
/// always finds the local hour) is sampled.
pub open spec fn samples_every_datable(idx: Seq<int>, acts: Seq<Activity>) -> bool {
    forall|j: int| 0 <= j < acts.len() && clock::in_written_range(acts[j].start_time as int) ==> #[trigger] sampled_at(idx, j)
}

/// `samples` come, in order, from the activities at the strictly increasing
/// positions `idx`: each carries the local hour of that activity's start and
/// its productivity.
pub open spec fn sampled_from(idx: Seq<int>, samples: Seq<(u32, bool)>, acts: Seq<Activity>) -> bool {
    &&& idx.len() == samples.len()
    &&& forall|k: int| 0 <= k < idx.len() ==> 0 <= #[trigger] idx[k] < acts.len()
        && samples[k].0 < 24 && samples[k].1 == acts[idx[k]].is_productive
        && clock::local_hour_of(acts[idx[k]].start_time as int, Some(samples[k].0))
    &&& forall|k1: int, k2: int| 0 <= k1 < k2 < idx.len() ==> idx[k1] < idx[k2]
}

/// Productive time below half of an eight-hour day.
pub open spec fn short_on_work(productive_time: nat) -> bool {
    productive_time * 2 < 8 * 3600 * 1000
}

/// The alerts that do not depend on the score: too little productive work
/// (under half of an eight-hour day), and fewer than four completed sessions.
pub fn work_alerts(stats: &ProductivityTotals) -> (r: Vec<String>)
    ensures
        r@.len() == (if short_on_work(stats.productive_time as nat) { 1int } else { 0int }) + (if stats.completed_pomodoros < 4 { 1int } else { 0int }),
        short_on_work(stats.productive_time as nat) ==> r@[0]@ == "工作时间不足,建议增加有效工作时间"@,
        stats.completed_pomodoros < 4 ==> r@[r@.len() - 1]@ == "番茄钟完成数量较少,建议使用番茄工作法提高专注度"@,
{
    let mut out: Vec<String> = Vec::new();
    if stats.productive_time < 4 * 3600 * 1000 {
        out.push(text("工作时间不足,建议增加有效工作时间"));
    }
    if stats.completed_pomodoros < 4 {
        out.push(text("番茄钟完成数量较少,建议使用番茄工作法提高专注度"));
    }
    out
}

} // verus!
