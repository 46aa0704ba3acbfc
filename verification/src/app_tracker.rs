use vstd::prelude::*;
use crate::clock;
use crate::error::{text, TimeTrackerError};
use crate::grouping::{self, category_groups, group_sum, is_last_max, keys_unique, lemma_tally, tally, text_groups};
use crate::platform::WindowInfo;
use crate::text::{ascii_lower, ascii_text, contains_str, lowercase_of, seq_contains, to_lowercase};

verus! {

/// What kind of application a window belongs to.
#[derive(Debug, Clone, Copy, PartialEq, Eq, Hash, Structural)]
pub enum AppCategory {
    Development,
    Communication,
    Productivity,
    Entertainment,
    Other,
}

/// One stretch of time spent in an application; `start_time` is a millisecond
/// timestamp, `duration` is in milliseconds.
#[derive(Debug)]
pub struct AppUsageData {
    pub app_name: String,
    pub window_title: String,
    pub start_time: i64,
    pub duration: u64,
    pub is_productive: bool,
    pub category: AppCategory,
}

impl AppUsageData {
    /// A field-for-field copy.
    pub fn duplicate(&self) -> (r: AppUsageData)
        ensures
            r == *self,
    {
        AppUsageData {
            app_name: self.app_name.clone(),
            window_title: self.window_title.clone(),
            start_time: self.start_time,
            duration: self.duration,
            is_productive: self.is_productive,
            category: self.category,
        }
    }
}

/// Which applications count as productive, how often to look at the foreground
/// window and when to count the user idle (milliseconds), and the name patterns
/// that decide an application's category, tried in order.
#[derive(Debug)]
pub struct AppUsageConfig {
    pub productive_apps: Vec<String>,
    pub unproductive_apps: Vec<String>,
    pub tracking_interval: u64,
    pub idle_threshold: u64,
    pub category_rules: Vec<(String, AppCategory)>,
}

impl Default for AppUsageConfig {
    /// Editors and office programs are productive, games and YouTube are not;
    /// a look every 30 seconds, idle after 5 minutes; code and Visual Studio are
    /// development, browsers and office programs productivity, Slack and Teams
    /// communication.
    fn default() -> (c: AppUsageConfig)
        ensures
            c.productive_apps@.len() == 4,
            c.productive_apps@[0]@ == "code"@,
            c.productive_apps@[1]@ == "visual studio"@,
            c.productive_apps@[2]@ == "word"@,
            c.productive_apps@[3]@ == "excel"@,
            c.unproductive_apps@.len() == 2,
            c.unproductive_apps@[0]@ == "game"@,
            c.unproductive_apps@[1]@ == "youtube"@,
            c.tracking_interval == 30 * 1000,
            c.idle_threshold == 300 * 1000,
            rules_view(c.category_rules@) == seq![
                ("code"@, AppCategory::Development),
                ("visual studio"@, AppCategory::Development),
                ("chrome"@, AppCategory::Productivity),
                ("firefox"@, AppCategory::Productivity),
                ("word"@, AppCategory::Productivity),
                ("excel"@, AppCategory::Productivity),
                ("slack"@, AppCategory::Communication),
                ("teams"@, AppCategory::Communication),
            ],
    {
        let mut category_rules: Vec<(String, AppCategory)> = Vec::new();
        category_rules.push((text("code"), AppCategory::Development));
        category_rules.push((text("visual studio"), AppCategory::Development));
        category_rules.push((text("chrome"), AppCategory::Productivity));
        category_rules.push((text("firefox"), AppCategory::Productivity));
        category_rules.push((text("word"), AppCategory::Productivity));
        category_rules.push((text("excel"), AppCategory::Productivity));
        category_rules.push((text("slack"), AppCategory::Communication));
        category_rules.push((text("teams"), AppCategory::Communication));
        let mut productive_apps: Vec<String> = Vec::new();
        productive_apps.push(text("code"));
        productive_apps.push(text("visual studio"));
        productive_apps.push(text("word"));
        productive_apps.push(text("excel"));
        let mut unproductive_apps: Vec<String> = Vec::new();
        unproductive_apps.push(text("game"));
        unproductive_apps.push(text("youtube"));
        let c = AppUsageConfig {
            productive_apps,
            unproductive_apps,
            tracking_interval: 30 * 1000,
            idle_threshold: 300 * 1000,
            category_rules,
        };
        assert(rules_view(c.category_rules@) =~= seq![
            ("code"@, AppCategory::Development),
            ("visual studio"@, AppCategory::Development),
            ("chrome"@, AppCategory::Productivity),
            ("firefox"@, AppCategory::Productivity),
            ("word"@, AppCategory::Productivity),
            ("excel"@, AppCategory::Productivity),
            ("slack"@, AppCategory::Communication),
            ("teams"@, AppCategory::Communication),
        ]);
        c
    }
}

/// The category rules as (pattern, category) pairs of plain text.
pub open spec fn rules_view(rules: Seq<(String, AppCategory)>) -> Seq<(Seq<char>, AppCategory)> {
    rules.map_values(|p: (String, AppCategory)| (p.0@, p.1))
}

/// Some pattern of the list occurs in the lower-cased name, both compared in
/// lower case.
pub open spec fn matches_any(patterns: Seq<String>, lower_name: Seq<char>) -> bool {
    exists|i: int| 0 <= i < patterns.len() && seq_contains(lower_name, lowercase_of(#[trigger] patterns[i]@))
}

/// An application is productive when its name (ignoring case) contains one of
/// the productive patterns and none of the unproductive ones.
pub open spec fn productive_name(config: &AppUsageConfig, name: Seq<char>) -> bool {
    let lower = lowercase_of(name);
    matches_any(config.productive_apps@, lower) && !matches_any(config.unproductive_apps@, lower)
}

/// The category of the first rule whose pattern (ignoring case) occurs in the
/// lower-cased name; `Other` when none does.
pub open spec fn category_for(rules: Seq<(Seq<char>, AppCategory)>, lower_name: Seq<char>) -> AppCategory
    decreases rules.len(),
{
    if rules.len() == 0 {
        AppCategory::Other
    } else if seq_contains(lower_name, lowercase_of(rules[0].0)) {
        rules[0].1
    } else {
        category_for(rules.drop_first(), lower_name)
    }
}

/// The category an application name falls in under `config`.
pub open spec fn category_of_name(config: &AppUsageConfig, name: Seq<char>) -> AppCategory {
    category_for(rules_view(config.category_rules@), lowercase_of(name))
}

/// Matching ignores case: names with the same lower-case form are equally
/// productive and fall in the same category. For ASCII names the lower-case
/// form is the name with its capital letters made small (see
/// `AppTracker::is_productive`), so names that differ only in the case of
/// their letters are classified alike.
pub proof fn law_case_insensitive_names(config: &AppUsageConfig, a: Seq<char>, b: Seq<char>)
    ensures
        lowercase_of(a) == lowercase_of(b) ==> productive_name(config, a) == productive_name(config, b)
            && category_of_name(config, a) == category_of_name(config, b),
{
}

fn any_pattern_in(patterns: &Vec<String>, lower_name: &String) -> (b: bool)
    ensures
        b == matches_any(patterns@, lower_name@),
{
    let n = patterns.len();
    let mut i: usize = 0;
    while i < n
        invariant
            n == patterns@.len(),
            i <= n,
            forall|j: int| 0 <= j < i ==> !seq_contains(lower_name@, lowercase_of(#[trigger] patterns@[j]@)),
        decreases n - i,
    {
        let p = to_lowercase(patterns[i].as_str());
        if contains_str(lower_name.as_str(), p.as_str()) {
            return true;
        }
        i = i + 1;
    }
    false
}

/// Usage totals (milliseconds) of the records since some time, with the time
/// per application and per category in order of first use.
pub struct UsageSummary {
    pub total: nat,
    pub productive: nat,
    pub unproductive: nat,
    pub apps: Seq<(Seq<char>, nat)>,
    pub categories: Seq<(AppCategory, nat)>,
}

/// The totals with one more record counted.
pub open spec fn add_record(s: UsageSummary, r: AppUsageData) -> UsageSummary {
    UsageSummary {
        total: s.total + r.duration as nat,
        productive: if r.is_productive { s.productive + r.duration as nat } else { s.productive },
        unproductive: if r.is_productive { s.unproductive } else { s.unproductive + r.duration as nat },
        apps: tally(s.apps, r.app_name@, r.duration as nat),
        categories: tally(s.categories, r.category, r.duration as nat),
    }
}

/// The totals of the records that started at or after `since`, counted in
/// order.
pub open spec fn summarize(recs: Seq<AppUsageData>, since: i64) -> UsageSummary
    decreases recs.len(),
{
    if recs.len() == 0 {
        UsageSummary { total: 0, productive: 0, unproductive: 0, apps: seq![], categories: seq![] }
    } else {
        let s = summarize(recs.drop_last(), since);
        if recs.last().start_time >= since {
            add_record(s, recs.last())
        } else {
            s
        }
    }
}

/// The usage totals add up: productive and unproductive time make the total,
/// and so do the times per application and the times per category, each
/// application and category listed once.
pub proof fn law_usage_adds_up(recs: Seq<AppUsageData>, since: i64)
    ensures
        summarize(recs, since).productive + summarize(recs, since).unproductive == summarize(recs, since).total,
        group_sum(summarize(recs, since).apps) == summarize(recs, since).total,
        group_sum(summarize(recs, since).categories) == summarize(recs, since).total,
        keys_unique(summarize(recs, since).apps),
        keys_unique(summarize(recs, since).categories),
    decreases recs.len(),
{
    if recs.len() > 0 {
        let s = summarize(recs.drop_last(), since);
        law_usage_adds_up(recs.drop_last(), since);
        if recs.last().start_time >= since {
            lemma_tally(s.apps, recs.last().app_name@, recs.last().duration as nat);
            lemma_tally(s.categories, recs.last().category, recs.last().duration as nat);
        }
    }
}

/// Counting a prefix never gives more time than counting all the records.
pub proof fn lemma_summary_prefix(recs: Seq<AppUsageData>, since: i64, i: int)
    requires
        0 <= i <= recs.len(),
    ensures
        summarize(recs.take(i), since).total <= summarize(recs, since).total,
    decreases recs.len() - i,
{
    if i < recs.len() {
        lemma_summary_prefix(recs, since, i + 1);
        assert(recs.take(i + 1).drop_last() =~= recs.take(i));
    } else {
        assert(recs.take(i) =~= recs);
    }
}

/// Time spent per application and per category since some moment; durations
/// in milliseconds, entries in order of first use.
#[derive(Debug)]
pub struct AppUsageStats {
    pub total_time: u64,
    pub productive_time: u64,
    pub unproductive_time: u64,
    pub most_used_app: Option<String>,
    pub app_usage: Vec<(String, u64)>,
    pub category_usage: Vec<(AppCategory, u64)>,
}

impl AppUsageStats {
    /// No time recorded.
    pub fn new() -> (s: AppUsageStats)
        ensures
            s.total_time == 0,
            s.productive_time == 0,
            s.unproductive_time == 0,
            s.most_used_app is None,
            s.app_usage@.len() == 0,
            s.category_usage@.len() == 0,
    {
        AppUsageStats {
            total_time: 0,
            productive_time: 0,
            unproductive_time: 0,
            most_used_app: None,
            app_usage: Vec::new(),
            category_usage: Vec::new(),
        }
    }

    /// The category with the most time (the last of those tied for most), with
    /// its time; `None` when no time is recorded.
    pub fn get_most_used_category(&self) -> (r: Option<(AppCategory, u64)>)
        ensures
            self.category_usage@.len() == 0 <==> r is None,
            r matches Some(p) ==> exists|i: int| #[trigger] is_last_max(category_groups(self.category_usage@), i)
                && self.category_usage@[i] == p,
    {
        match grouping::last_max_category(&self.category_usage) {
            Some(i) => Some(self.category_usage[i]),
            None => None,
        }
    }
}

/// Follows which application is in front and keeps the finished stretches.
pub struct AppTracker {
    config: AppUsageConfig,
    current_app: Option<AppUsageData>,
    last_check: i64,
    storage: Vec<AppUsageData>,
    last_active: i64,
}

impl AppTracker {
    pub closed spec fn spec_config(&self) -> &AppUsageConfig {
        &self.config
    }

    pub closed spec fn spec_current(&self) -> Option<AppUsageData> {
        self.current_app
    }

    pub closed spec fn spec_last_check(&self) -> i64 {
        self.last_check
    }

    /// The finished stretches, oldest first.
    pub closed spec fn spec_storage(&self) -> Seq<AppUsageData> {
        self.storage@
    }

    /// A tracker with nothing recorded, its last check at `now`.
    pub fn new_at(config: AppUsageConfig, now: i64) -> (t: AppTracker)
        ensures
            t.spec_config() == config,
            t.spec_current() is None,
            t.spec_storage().len() == 0,
            t.spec_last_check() == now,
    {
        AppTracker { config, current_app: None, last_check: now, storage: Vec::new(), last_active: now }
    }

    /// A tracker with nothing recorded, its last check at the present.
    pub fn new(config: AppUsageConfig) -> (r: Result<AppTracker, TimeTrackerError>)
        ensures
            r matches Ok(t) && t.spec_config() == config && t.spec_current() is None
                && t.spec_storage().len() == 0,
            r matches Ok(t) && -clock::max_calendar_ms() <= t.spec_last_check() <= clock::max_calendar_ms(),
    {
        let now = clock::current_time_millis();
        Ok(AppTracker::new_at(config, now))
    }

    /// Whether an application counts as productive: its name, ignoring case,
    /// contains a productive pattern and no unproductive one.
    pub fn is_productive(&self, app_name: &str) -> (b: bool)
        ensures
            b == productive_name(self.spec_config(), app_name@),
            ascii_text(app_name@) ==> lowercase_of(app_name@) == ascii_lower(app_name@),
    {
        let lower = to_lowercase(app_name);
        any_pattern_in(&self.config.productive_apps, &lower) && !any_pattern_in(
            &self.config.unproductive_apps,
            &lower,
        )
    }

    /// The category of the first rule whose pattern, ignoring case, occurs in
    /// the name; `Other` when none matches.
    pub fn get_app_category(&self, app_name: &str) -> (c: AppCategory)
        ensures
            c == category_of_name(self.spec_config(), app_name@),
            ascii_text(app_name@) ==> lowercase_of(app_name@) == ascii_lower(app_name@),
    {
        let lower = to_lowercase(app_name);
        let rules = &self.config.category_rules;
        let n = rules.len();
        let ghost rv = rules_view(rules@);
        assert(rv.skip(0) =~= rv);
        let mut i: usize = 0;
        while i < n
            invariant
                n == rules@.len(),
                rv == rules_view(rules@),
                rules@ == self.spec_config().category_rules@,
                lower@ == lowercase_of(app_name@),
                ascii_text(app_name@) ==> lower@ == ascii_lower(app_name@),
                i <= n,
                category_for(rv, lower@) == category_for(rv.skip(i as int), lower@),
            decreases n - i,
        {
            let pattern = to_lowercase(rules[i].0.as_str());
            proof {
                assert(rv[i as int] == (rules@[i as int].0@, rules@[i as int].1));
                assert(rv.skip(i as int)[0] == rv[i as int]);
                assert(rv.skip(i as int).drop_first() =~= rv.skip(i + 1));
            }
            if contains_str(lower.as_str(), pattern.as_str()) {
                return rules[i].1;
            }
            i = i + 1;
        }
        assert(rv.skip(n as int).len() == 0);
        AppCategory::Other
    }

    /// Makes the window's application the current one, starting at `now`; the
    /// application that was current is stored with the time since the last
    /// check as its duration.
    pub fn switch_to_new_app_at(&mut self, window_info: WindowInfo, now: i64) -> (r: Result<(), TimeTrackerError>)
        ensures
            r is Ok,
            final(self).spec_config() == old(self).spec_config(),
            final(self).spec_last_check() == old(self).spec_last_check(),
            final(self).spec_current() == Some(AppUsageData {
                app_name: window_info.app_name,
                window_title: window_info.window_title,
                start_time: now,
                duration: 0,
                is_productive: productive_name(old(self).spec_config(), window_info.app_name@),
                category: category_of_name(old(self).spec_config(), window_info.app_name@),
            }),
            final(self).spec_storage() == match old(self).spec_current() {
                Some(app) => old(self).spec_storage().push(AppUsageData {
                    duration: clock::elapsed_between(old(self).spec_last_check(), now) as u64,
                    ..app
                }),
                None => old(self).spec_storage(),
            },
    {
        let is_productive = self.is_productive(window_info.app_name.as_str());
        let category = self.get_app_category(window_info.app_name.as_str());
        let app_info = AppUsageData {
            app_name: window_info.app_name,
            window_title: window_info.window_title,
            start_time: now,
            duration: 0,
            is_productive,
            category,
        };
        let previous = self.current_app.take();
        match previous {
            Some(mut app) => {
                app.duration = clock::elapsed_ms(self.last_check, now);
                self.storage.push(app);
            },
            None => {},
        }
        self.current_app = Some(app_info);
        Ok(())
    }

    /// `after` is `before` switched to the window's application at `now`:
    /// the clauses of `switch_to_new_app_at`.
    pub open spec fn switched_to(before: AppTracker, after: AppTracker, window_info: WindowInfo, now: i64) -> bool {
        &&& after.spec_config() == before.spec_config()
        &&& after.spec_last_check() == before.spec_last_check()
        &&& after.spec_current() == Some(AppUsageData {
            app_name: window_info.app_name,
            window_title: window_info.window_title,
            start_time: now,
            duration: 0,
            is_productive: productive_name(before.spec_config(), window_info.app_name@),
            category: category_of_name(before.spec_config(), window_info.app_name@),
        })
        &&& after.spec_storage() == match before.spec_current() {
            Some(app) => before.spec_storage().push(AppUsageData {
                duration: clock::elapsed_between(before.spec_last_check(), now) as u64,
                ..app
            }),
            None => before.spec_storage(),
        }
    }

    /// `switch_to_new_app_at` at the time the clock reads now.
    pub fn switch_to_new_app(&mut self, window_info: WindowInfo) -> (r: Result<(), TimeTrackerError>)
        ensures
            r is Ok,
            exists|now: i64| #[trigger] AppTracker::switched_to(*old(self), *final(self), window_info, now),
    {
        let now = clock::current_time_millis();
        let ghost w = window_info;
        let r = self.switch_to_new_app_at(window_info, now);
        assert(AppTracker::switched_to(*old(self), *self, w, now));
        r
    }

    /// Records the window the platform reports as in front at `now`, and marks
    /// `now` as the last check.
    pub fn update_at(&mut self, window_info: WindowInfo, now: i64) -> (r: Result<(), TimeTrackerError>)
        ensures
            r is Ok,
            final(self).spec_config() == old(self).spec_config(),
            final(self).spec_last_check() == now,
            final(self).spec_current() == Some(AppUsageData {
                app_name: window_info.app_name,
                window_title: window_info.window_title,
                start_time: now,
                duration: 0,
                is_productive: productive_name(old(self).spec_config(), window_info.app_name@),
                category: category_of_name(old(self).spec_config(), window_info.app_name@),
            }),
            final(self).spec_storage() == match old(self).spec_current() {
                Some(app) => old(self).spec_storage().push(AppUsageData {
                    duration: clock::elapsed_between(old(self).spec_last_check(), now) as u64,
                    ..app
                }),
                None => old(self).spec_storage(),
            },
    {
        self.switch_to_new_app_at(window_info, now)?;
        self.last_check = now;
        Ok(())
    }

    /// Looks at a window without changing what is tracked: the record it
    /// would make is not kept.
    pub fn record_window(&mut self, window_info: WindowInfo) -> (r: Result<(), TimeTrackerError>)
        ensures
            r is Ok,
            final(self).spec_config() == old(self).spec_config(),
            final(self).spec_last_check() == old(self).spec_last_check(),
            final(self).spec_current() == old(self).spec_current(),
            final(self).spec_storage() == old(self).spec_storage(),
    {
        let _is_productive = self.is_productive(window_info.app_name.as_str());
        Ok(())
    }

    /// Ends the current stretch because the user is idle: it is stored as it
    /// stands and nothing is current.
    pub fn handle_idle_period(&mut self) -> (r: Result<(), TimeTrackerError>)
        ensures
            r is Ok,
            final(self).spec_config() == old(self).spec_config(),
            final(self).spec_last_check() == old(self).spec_last_check(),
            final(self).spec_current() is None,
            final(self).spec_storage() == match old(self).spec_current() {
                Some(app) => old(self).spec_storage().push(app),
                None => old(self).spec_storage(),
            },
    {
        let previous = self.current_app.take();
        match previous {
            Some(app) => self.storage.push(app),
            None => {},
        }
        Ok(())
    }

    /// Adds the time since the last check (up to `now`) to the current stretch.
    pub fn update_current_app_duration(&mut self, now: i64) -> (r: Result<(), TimeTrackerError>)
        requires
            old(self).spec_current() matches Some(app) ==> app.duration + clock::elapsed_between(
                old(self).spec_last_check(),
                now,
            ) <= u64::MAX,
        ensures
            r is Ok,
            final(self).spec_config() == old(self).spec_config(),
            final(self).spec_last_check() == old(self).spec_last_check(),
            final(self).spec_storage() == old(self).spec_storage(),
            final(self).spec_current() == match old(self).spec_current() {
                Some(app) => Some(AppUsageData {
                    duration: (app.duration + clock::elapsed_between(old(self).spec_last_check(), now)) as u64,
                    ..app
                }),
                None => None,
            },
    {
        let elapsed = clock::elapsed_ms(self.last_check, now);
        let previous = self.current_app.take();
        match previous {
            Some(mut app) => {
                app.duration = app.duration + elapsed;
                self.current_app = Some(app);
            },
            None => {},
        }
        Ok(())
    }

    /// Totals of the stored stretches that started at or after `since`: all
    /// time, productive and unproductive time, time per application and per
    /// category in order of first use, and the application with the most time
    /// (the last of those tied).
    pub fn get_usage_stats(&self, since: i64) -> (r: Result<AppUsageStats, TimeTrackerError>)
        requires
            summarize(self.spec_storage(), since).total <= u64::MAX,
        ensures
            r matches Ok(s) && {
                let sum = summarize(self.spec_storage(), since);
                &&& s.total_time == sum.total
                &&& s.productive_time == sum.productive
                &&& s.unproductive_time == sum.unproductive
                &&& text_groups(s.app_usage@) == sum.apps
                &&& category_groups(s.category_usage@) == sum.categories
                &&& (sum.apps.len() == 0 <==> s.most_used_app is None)
                &&& (s.most_used_app matches Some(name) ==> exists|i: int| #[trigger] is_last_max(sum.apps, i)
                    && sum.apps[i].0 == name@)
            },
    {
        let mut stats = AppUsageStats::new();
        let n = self.storage.len();
        let ghost recs = self.storage@;
        let mut i: usize = 0;
        while i < n
            invariant
                n == recs.len(),
                recs == self.spec_storage(),
                i <= n,
                summarize(recs, since).total <= u64::MAX,
                ({
                    let sum = summarize(recs.take(i as int), since);
                    &&& stats.total_time == sum.total
                    &&& stats.productive_time == sum.productive
                    &&& stats.unproductive_time == sum.unproductive
                    &&& text_groups(stats.app_usage@) == sum.apps
                    &&& category_groups(stats.category_usage@) == sum.categories
                }),
                keys_unique(text_groups(stats.app_usage@)),
                keys_unique(category_groups(stats.category_usage@)),
                group_sum(text_groups(stats.app_usage@)) == stats.total_time,
                group_sum(category_groups(stats.category_usage@)) == stats.total_time,
                stats.productive_time + stats.unproductive_time == stats.total_time,
                stats.most_used_app is None,
            decreases n - i,
        {
            let app = &self.storage[i];
            proof {
                assert(recs.take(i + 1).drop_last() =~= recs.take(i as int));
                assert(recs.take(i + 1).last() == recs[i as int]);
                lemma_summary_prefix(recs, since, i + 1);
            }
            if app.start_time >= since {
                proof {
                    grouping::lemma_tally(text_groups(stats.app_usage@), app.app_name@, app.duration as nat);
                    grouping::lemma_tally(category_groups(stats.category_usage@), app.category, app.duration as nat);
                }
                stats.total_time = stats.total_time + app.duration;
                if app.is_productive {
                    stats.productive_time = stats.productive_time + app.duration;
                } else {
                    stats.unproductive_time = stats.unproductive_time + app.duration;
                }
                grouping::add_text(&mut stats.app_usage, &app.app_name, app.duration);
                grouping::add_category(&mut stats.category_usage, app.category, app.duration);
            }
            i = i + 1;
        }
        proof {
            assert(recs.take(n as int) =~= recs);
        }
        match grouping::last_max_text(&stats.app_usage) {
            Some(k) => {
                stats.most_used_app = Some(stats.app_usage[k].0.clone());
                assert(text_groups(stats.app_usage@)[k as int].0 == stats.app_usage@[k as int].0@);
                assert(is_last_max(text_groups(stats.app_usage@), k as int));
            },
            None => {},
        }
        Ok(stats)
    }

    /// A copy of the stored stretches, oldest first.
    pub fn export_data(&self) -> (r: Result<Vec<AppUsageData>, TimeTrackerError>)
        ensures
            r matches Ok(v) && v@ == self.spec_storage(),
    {
        let mut out: Vec<AppUsageData> = Vec::new();
        let n = self.storage.len();
        let mut i: usize = 0;
        while i < n
            invariant
                n == self.storage@.len(),
                i <= n,
                out@ =~= self.storage@.take(i as int),
            decreases n - i,
        {
            out.push(self.storage[i].duplicate());
            i = i + 1;
        }
        assert(self.storage@.take(n as int) =~= self.storage@);
        Ok(out)
    }

    /// A stretch is valid when it lasted at least a second and names its
    /// application.
    pub fn validate_app_data(&self, data: &AppUsageData) -> (r: Result<(), TimeTrackerError>)
        ensures
            data.duration < 1000 ==> (r matches Err(TimeTrackerError::Platform(m)) && m@ == "Invalid duration"@),
            data.duration >= 1000 && data.app_name@.len() == 0 ==> (r matches Err(
                TimeTrackerError::Platform(m),
            ) && m@ == "Empty app name"@),
            data.duration >= 1000 && data.app_name@.len() > 0 ==> r is Ok,
    {
        if data.duration / 1000 == 0 {
            return Err(TimeTrackerError::Platform(text("Invalid duration")));
        }
        if data.app_name.as_str().is_empty() {
            return Err(TimeTrackerError::Platform(text("Empty app name")));
        }
        Ok(())
    }

    /// Stores a finished stretch.
    pub fn save_app_record(&mut self, app_data: AppUsageData) -> (r: Result<(), TimeTrackerError>)
        ensures
            r is Ok,
            final(self).spec_config() == old(self).spec_config(),
            final(self).spec_current() == old(self).spec_current(),
            final(self).spec_last_check() == old(self).spec_last_check(),
            final(self).spec_storage() == old(self).spec_storage().push(app_data),
    {
        self.storage.push(app_data);
        Ok(())
    }
}

} // verus!
