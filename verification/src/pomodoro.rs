use vstd::prelude::*;
use crate::clock;
use crate::config;
use crate::error::{text, TimeTrackerError};

verus! {

/// The phase a paused timer returns to.
#[derive(Debug, Clone, Copy, PartialEq, Eq, Structural)]
pub enum PreviousState {
    Working,
    ShortBreak,
    LongBreak,
}

/// The phases of the pomodoro timer.
#[derive(Debug, Clone, Copy, PartialEq, Eq, Structural)]
pub enum PomodoroState {
    Idle,
    Working,
    ShortBreak,
    LongBreak,
    Paused(PreviousState),
}

impl PomodoroState {
    /// The timer counts down in this phase.
    pub open spec fn is_running(self) -> bool {
        self is Working || self is ShortBreak || self is LongBreak
    }
}

/// Timer settings; every duration is in milliseconds.
#[derive(Debug, Clone, Copy)]
pub struct PomodoroConfig {
    pub work_duration: u64,
    pub short_break_duration: u64,
    pub long_break_duration: u64,
    pub long_break_interval: u32,
    pub auto_start_breaks: bool,
    pub auto_start_pomodoros: bool,
    pub sound_enabled: bool,
    pub sound_volume: u8,
}

impl PomodoroConfig {
    /// The duration of a counting phase, or of the phase a pause returns to.
    pub open spec fn phase_duration(self, state: PomodoroState) -> nat {
        match state {
            PomodoroState::Working => self.work_duration as nat,
            PomodoroState::ShortBreak => self.short_break_duration as nat,
            PomodoroState::LongBreak => self.long_break_duration as nat,
            PomodoroState::Paused(PreviousState::Working) => self.work_duration as nat,
            PomodoroState::Paused(PreviousState::ShortBreak) => self.short_break_duration as nat,
            PomodoroState::Paused(PreviousState::LongBreak) => self.long_break_duration as nat,
            PomodoroState::Idle => self.work_duration as nat,
        }
    }
}

impl Default for PomodoroConfig {
    /// 25 minutes of work, 5 and 15 minute breaks, a long break every 4
    /// pomodoros, nothing started automatically, sound on at volume 80.
    fn default() -> (c: PomodoroConfig)
        ensures
            c.work_duration == 25 * 60 * 1000,
            c.short_break_duration == 5 * 60 * 1000,
            c.long_break_duration == 15 * 60 * 1000,
            c.long_break_interval == 4,
            !c.auto_start_breaks,
            !c.auto_start_pomodoros,
            c.sound_enabled,
            c.sound_volume == 80,
    {
        PomodoroConfig {
            work_duration: 25 * 60 * 1000,
            short_break_duration: 5 * 60 * 1000,
            long_break_duration: 15 * 60 * 1000,
            long_break_interval: 4,
            auto_start_breaks: false,
            auto_start_pomodoros: false,
            sound_enabled: true,
            sound_volume: 80,
        }
    }
}

impl From<config::PomodoroConfig> for PomodoroConfig {
    /// Takes the timings from the application settings; sound is switched on
    /// at volume 80.
    fn from(c: config::PomodoroConfig) -> (r: PomodoroConfig) {
        PomodoroConfig {
            work_duration: c.work_duration,
            short_break_duration: c.short_break_duration,
            long_break_duration: c.long_break_duration,
            long_break_interval: c.long_break_interval,
            auto_start_breaks: c.auto_start_breaks,
            auto_start_pomodoros: c.auto_start_pomodoros,
            sound_enabled: true,
            sound_volume: 80,
        }
    }
}

impl vstd::std_specs::convert::FromSpecImpl<config::PomodoroConfig> for PomodoroConfig {
    open spec fn obeys_from_spec() -> bool {
        true
    }

    open spec fn from_spec(c: config::PomodoroConfig) -> PomodoroConfig {
        PomodoroConfig {
            work_duration: c.work_duration,
            short_break_duration: c.short_break_duration,
            long_break_duration: c.long_break_duration,
            long_break_interval: c.long_break_interval,
            auto_start_breaks: c.auto_start_breaks,
            auto_start_pomodoros: c.auto_start_pomodoros,
            sound_enabled: true,
            sound_volume: 80,
        }
    }
}

/// Sum of the per-day completion counts.
pub open spec fn daily_total(days: Seq<(i64, u32)>) -> nat
    decreases days.len(),
{
    if days.len() == 0 {
        0
    } else {
        daily_total(days.drop_last()) + days.last().1 as nat
    }
}

/// The per-day counts after one more completion on `today`: the last entry is
/// incremented when it is `today`, otherwise a new entry `(today, 1)` is added.
pub open spec fn record_day(days: Seq<(i64, u32)>, today: i64) -> Seq<(i64, u32)> {
    if days.len() > 0 && days.last().0 == today {
        days.update(days.len() - 1, (today, (days.last().1 + 1) as u32))
    } else {
        days.push((today, 1u32))
    }
}

/// Each per-day count is bounded by the sum of all of them.
pub proof fn lemma_last_le_total(days: Seq<(i64, u32)>)
    requires
        days.len() > 0,
    ensures
        days.last().1 <= daily_total(days),
{
}

/// Recording a completion adds one to the sum of per-day counts.
pub proof fn lemma_record_day_total(days: Seq<(i64, u32)>, today: i64)
    requires
        daily_total(days) < u32::MAX,
    ensures
        daily_total(record_day(days, today)) == daily_total(days) + 1,
{
    if days.len() > 0 && days.last().0 == today {
        let r = record_day(days, today);
        assert(r.drop_last() =~= days.drop_last());
    } else {
        assert(days.push((today, 1u32)).drop_last() =~= days);
    }
}

/// Totals kept by the timer; durations in milliseconds, days as local day
/// numbers.
#[derive(Debug, Clone)]
pub struct PomodoroStats {
    pub total_completed: u32,
    pub total_interrupted: u32,
    pub total_work_time: u64,
    pub total_break_time: u64,
    pub longest_streak: u32,
    pub current_streak: u32,
    pub daily_completed: Vec<(i64, u32)>,
}

/// The mathematical content of `PomodoroStats`.
pub struct StatsView {
    pub total_completed: nat,
    pub total_interrupted: nat,
    pub total_work_time: nat,
    pub total_break_time: nat,
    pub longest_streak: nat,
    pub current_streak: nat,
    pub daily_completed: Seq<(i64, u32)>,
}

impl View for PomodoroStats {
    type V = StatsView;

    open spec fn view(&self) -> StatsView {
        StatsView {
            total_completed: self.total_completed as nat,
            total_interrupted: self.total_interrupted as nat,
            total_work_time: self.total_work_time as nat,
            total_break_time: self.total_break_time as nat,
            longest_streak: self.longest_streak as nat,
            current_streak: self.current_streak as nat,
            daily_completed: self.daily_completed@,
        }
    }
}

impl StatsView {
    /// Streaks never exceed the completions that make them, the longest streak
    /// is at least the current one, and the per-day counts add up to the
    /// completions.
    pub open spec fn wf(self) -> bool {
        &&& self.current_streak <= self.longest_streak
        &&& self.longest_streak <= self.total_completed
        &&& daily_total(self.daily_completed) == self.total_completed
    }

    /// The totals after a completed work phase of `work` milliseconds on `today`.
    pub open spec fn after_work(self, work: nat, today: i64) -> StatsView {
        let streak = self.current_streak + 1;
        StatsView {
            total_completed: self.total_completed + 1,
            total_work_time: self.total_work_time + work,
            current_streak: streak,
            longest_streak: if self.longest_streak >= streak { self.longest_streak } else { streak },
            daily_completed: record_day(self.daily_completed, today),
            ..self
        }
    }

    /// The totals after a completed break of `length` milliseconds.
    pub open spec fn after_break(self, length: nat) -> StatsView {
        StatsView { total_break_time: self.total_break_time + length, ..self }
    }

    /// The totals after an interrupted work phase.
    pub open spec fn after_interruption(self) -> StatsView {
        StatsView { total_interrupted: self.total_interrupted + 1, current_streak: 0, ..self }
    }
}

impl Default for PomodoroStats {
    /// All counters at zero and no per-day entries.
    fn default() -> (s: PomodoroStats)
        ensures
            s.total_completed == 0,
            s.total_interrupted == 0,
            s.total_work_time == 0,
            s.total_break_time == 0,
            s.longest_streak == 0,
            s.current_streak == 0,
            s.daily_completed@.len() == 0,
    {
        PomodoroStats {
            total_completed: 0,
            total_interrupted: 0,
            total_work_time: 0,
            total_break_time: 0,
            longest_streak: 0,
            current_streak: 0,
            daily_completed: Vec::new(),
        }
    }
}

impl PomodoroStats {
    /// A copy with the same counters and per-day entries.
    pub fn duplicate(&self) -> (r: PomodoroStats)
        ensures
            r@ == self@,
    {
        let mut days: Vec<(i64, u32)> = Vec::new();
        let n = self.daily_completed.len();
        for i in 0..n
            invariant
                n == self.daily_completed@.len(),
                days@ =~= self.daily_completed@.take(i as int),
        {
            days.push(self.daily_completed[i]);
        }
        assert(self.daily_completed@.take(n as int) =~= self.daily_completed@);
        PomodoroStats {
            total_completed: self.total_completed,
            total_interrupted: self.total_interrupted,
            total_work_time: self.total_work_time,
            total_break_time: self.total_break_time,
            longest_streak: self.longest_streak,
            current_streak: self.current_streak,
            daily_completed: days,
        }
    }
}

/// Hooks the timer calls: `on_tick` with the remaining milliseconds while a
/// phase counts down, `on_complete` when a phase ends. Implemented by users of
/// the timer.
pub trait PomodoroCallbacks {
    fn on_tick(&self, remaining: u64);

    fn on_complete(&self);

    fn on_pause(&self);

    fn on_resume(&self);
}

/// Callbacks that do nothing.
#[derive(Debug, Clone, Copy)]
pub struct NoCallbacks;

impl PomodoroCallbacks for NoCallbacks {
    fn on_tick(&self, remaining: u64) {
    }

    fn on_complete(&self) {
    }

    fn on_pause(&self) {
    }

    fn on_resume(&self) {
    }
}

/// A call the timer made into its callbacks: `on_tick` with the remaining
/// milliseconds, or `on_complete`.
pub enum TimerCall {
    Tick(nat),
    Complete,
}

/// The mathematical content of a timer; `calls` lists, in order, the calls
/// it has made into its callbacks.
pub struct TimerView {
    pub config: PomodoroConfig,
    pub state: PomodoroState,
    pub start_time: Option<i64>,
    pub remaining_time: nat,
    pub completed_count: nat,
    pub stats: StatsView,
    pub project: Option<i64>,
    pub tags: Seq<String>,
    pub calls: Seq<TimerCall>,
}

impl TimerView {
    /// A counting phase has a start time, and no other phase has one; the
    /// count of work phases since the last long break stays below `u32::MAX`;
    /// the totals are consistent.
    pub open spec fn wf(self) -> bool {
        &&& self.state.is_running() <==> self.start_time is Some
        &&& self.completed_count < u32::MAX
        &&& self.stats.wf()
    }

    /// The completion of the phase the timer is in fits in the counters: a
    /// work phase adds one completion and its length to the work time, a
    /// break adds its length to the break time. Other phases cannot complete.
    pub open spec fn completion_fits(self) -> bool {
        match self.state {
            PomodoroState::Working => {
                &&& self.stats.total_completed < u32::MAX
                &&& self.stats.total_work_time + self.config.work_duration <= u64::MAX
            },
            PomodoroState::ShortBreak => self.stats.total_break_time + self.config.short_break_duration <= u64::MAX,
            PomodoroState::LongBreak => self.stats.total_break_time + self.config.long_break_duration <= u64::MAX,
            _ => true,
        }
    }

    /// The timer after `start` at time `now` from an idle or paused phase:
    /// a fresh work phase.
    pub open spec fn after_start(self, now: i64) -> TimerView {
        TimerView {
            state: PomodoroState::Working,
            remaining_time: self.config.work_duration as nat,
            start_time: Some(now),
            ..self
        }
    }

    /// The timer after `pause` at time `now` in a counting phase: the elapsed
    /// time is taken off the remaining time and the phase is remembered.
    pub open spec fn after_pause(self, now: i64) -> TimerView {
        let prev = match self.state {
            PomodoroState::ShortBreak => PreviousState::ShortBreak,
            PomodoroState::LongBreak => PreviousState::LongBreak,
            _ => PreviousState::Working,
        };
        let elapsed = clock::elapsed_between(self.start_time.unwrap(), now);
        TimerView {
            state: PomodoroState::Paused(prev),
            remaining_time: if self.remaining_time >= elapsed { (self.remaining_time - elapsed) as nat } else { 0 },
            start_time: None,
            ..self
        }
    }

    /// The timer after `stop`: idle with a full work phase ahead; stopping a
    /// work phase counts as an interruption.
    pub open spec fn after_stop(self) -> TimerView {
        TimerView {
            state: PomodoroState::Idle,
            remaining_time: self.config.work_duration as nat,
            start_time: None,
            stats: if self.state is Working { self.stats.after_interruption() } else { self.stats },
            ..self
        }
    }

    /// The timer after the counting phase it is in has run out at `now`;
    /// `on_complete` is called.
    pub open spec fn after_completion(self, now: i64, today: i64) -> TimerView {
        if self.state is Working {
            let count = self.completed_count + 1;
            let long = count >= self.config.long_break_interval;
            let next = if long {
                if self.config.auto_start_breaks { PomodoroState::LongBreak } else { PomodoroState::Idle }
            } else {
                if self.config.auto_start_breaks { PomodoroState::ShortBreak } else { PomodoroState::Idle }
            };
            TimerView {
                state: next,
                completed_count: if long { 0 } else { count },
                remaining_time: if long { self.config.long_break_duration as nat } else { self.config.short_break_duration as nat },
                start_time: if next is Idle { None } else { Some(now) },
                stats: self.stats.after_work(self.config.work_duration as nat, today),
                calls: self.calls.push(TimerCall::Complete),
                ..self
            }
        } else {
            let length = if self.state is ShortBreak {
                self.config.short_break_duration as nat
            } else {
                self.config.long_break_duration as nat
            };
            let next = if self.config.auto_start_pomodoros { PomodoroState::Working } else { PomodoroState::Idle };
            TimerView {
                state: next,
                remaining_time: self.config.work_duration as nat,
                start_time: if next is Idle { None } else { Some(now) },
                stats: self.stats.after_break(length),
                calls: self.calls.push(TimerCall::Complete),
                ..self
            }
        }
    }

    /// The timer after `update` at time `now` (local day `today`): a counting
    /// phase whose elapsed time reaches the remaining time completes;
    /// otherwise the elapsed time is taken off the remaining time and `on_tick`
    /// is called with what remains. Other phases are left alone.
    pub open spec fn after_update(self, now: i64, today: i64) -> TimerView {
        if self.state.is_running() && self.start_time is Some {
            let elapsed = clock::elapsed_between(self.start_time.unwrap(), now);
            if elapsed >= self.remaining_time {
                self.after_completion(now, today)
            } else {
                TimerView {
                    remaining_time: (self.remaining_time - elapsed) as nat,
                    calls: self.calls.push(TimerCall::Tick((self.remaining_time - elapsed) as nat)),
                    ..self
                }
            }
        } else {
            self
        }
    }

    /// The timer after its settings are replaced: the remaining time becomes the
    /// full duration of the current (or paused) phase under the new settings.
    pub open spec fn after_config(self, config: PomodoroConfig) -> TimerView {
        TimerView { config, remaining_time: config.phase_duration(self.state), ..self }
    }
}

/// A pomodoro timer. Durations are in milliseconds, times are millisecond
/// timestamps.
pub struct PomodoroTimer<C> {
    config: PomodoroConfig,
    state: PomodoroState,
    start_time: Option<i64>,
    remaining_time: u64,
    completed_count: u32,
    stats: PomodoroStats,
    callbacks: C,
    project: Option<i64>,
    tags: Vec<String>,
    calls: Ghost<Seq<TimerCall>>,
}

impl<C> View for PomodoroTimer<C> {
    type V = TimerView;

    closed spec fn view(&self) -> TimerView {
        TimerView {
            config: self.config,
            state: self.state,
            start_time: self.start_time,
            remaining_time: self.remaining_time as nat,
            completed_count: self.completed_count as nat,
            stats: self.stats@,
            project: self.project,
            tags: self.tags@,
            calls: self.calls@,
        }
    }
}

impl<C: PomodoroCallbacks> PomodoroTimer<C> {
    /// The callbacks the timer was made with.
    pub closed spec fn spec_callbacks(&self) -> C {
        self.callbacks
    }

    /// An idle timer with a full work phase ahead and no history.
    pub fn new(config: PomodoroConfig, callbacks: C) -> (t: Self)
        ensures
            t@.wf(),
            t@.config == config,
            t@.state == PomodoroState::Idle,
            t@.start_time is None,
            t@.remaining_time == config.work_duration,
            t@.completed_count == 0,
            t@.stats.total_completed == 0,
            t@.stats.total_interrupted == 0,
            t@.stats.total_work_time == 0,
            t@.stats.total_break_time == 0,
            t@.stats.longest_streak == 0,
            t@.stats.current_streak == 0,
            t@.stats.daily_completed.len() == 0,
            t@.project is None,
            t@.tags.len() == 0,
            t@.calls.len() == 0,
            t.spec_callbacks() == callbacks,
    {
        PomodoroTimer {
            config,
            state: PomodoroState::Idle,
            start_time: None,
            remaining_time: config.work_duration,
            completed_count: 0,
            stats: PomodoroStats::default(),
            callbacks,
            project: None,
            tags: Vec::new(),
            calls: Ghost(Seq::empty()),
        }
    }

    /// Starts a work phase at time `now` from an idle or paused timer; a
    /// counting timer is left unchanged and the call fails.
    pub fn start_at(&mut self, now: i64) -> (r: Result<(), TimeTrackerError>)
        requires
            old(self)@.wf(),
        ensures
            final(self)@.wf(),
            final(self).spec_callbacks() == old(self).spec_callbacks(),
            !old(self)@.state.is_running() ==> r is Ok && final(self)@ == old(self)@.after_start(now),
            old(self)@.state.is_running() ==> final(self)@ == old(self)@ && (r matches Err(
                TimeTrackerError::Platform(m),
            ) && m@ == "Timer is already running"@),
    {
        match self.state {
            PomodoroState::Idle | PomodoroState::Paused(_) => {
                self.state = PomodoroState::Working;
                self.remaining_time = self.config.work_duration;
                self.start_time = Some(now);
                Ok(())
            },
            _ => Err(TimeTrackerError::Platform(text("Timer is already running"))),
        }
    }

    /// `start_at` at the time the clock reads now.
    pub fn start(&mut self) -> (r: Result<(), TimeTrackerError>)
        requires
            old(self)@.wf(),
        ensures
            final(self)@.wf(),
            final(self).spec_callbacks() == old(self).spec_callbacks(),
            !old(self)@.state.is_running() ==> r is Ok && exists|now: i64|
                final(self)@ == old(self)@.after_start(now),
            old(self)@.state.is_running() ==> final(self)@ == old(self)@ && (r matches Err(
                TimeTrackerError::Platform(m),
            ) && m@ == "Timer is already running"@),
    {
        let now = clock::current_time_millis();
        self.start_at(now)
    }

    /// Pauses a counting phase at time `now`, keeping what remains of it; an
    /// idle or paused timer is left unchanged and the call fails.
    pub fn pause_at(&mut self, now: i64) -> (r: Result<(), TimeTrackerError>)
        requires
            old(self)@.wf(),
        ensures
            final(self)@.wf(),
            final(self).spec_callbacks() == old(self).spec_callbacks(),
            old(self)@.state.is_running() ==> r is Ok && final(self)@ == old(self)@.after_pause(now),
            !old(self)@.state.is_running() ==> final(self)@ == old(self)@ && (r matches Err(
                TimeTrackerError::Platform(m),
            ) && m@ == "Timer is not running"@),
    {
        let prev = match self.state {
            PomodoroState::Working => PreviousState::Working,
            PomodoroState::ShortBreak => PreviousState::ShortBreak,
            PomodoroState::LongBreak => PreviousState::LongBreak,
            _ => {
                return Err(TimeTrackerError::Platform(text("Timer is not running")));
            },
        };
        self.state = PomodoroState::Paused(prev);
        self.update_remaining_time(now);
        self.start_time = None;
        Ok(())
    }

    /// `pause_at` at the time the clock reads now.
    pub fn pause(&mut self) -> (r: Result<(), TimeTrackerError>)
        requires
            old(self)@.wf(),
        ensures
            final(self)@.wf(),
            final(self).spec_callbacks() == old(self).spec_callbacks(),
            old(self)@.state.is_running() ==> r is Ok && exists|now: i64|
                final(self)@ == old(self)@.after_pause(now),
            !old(self)@.state.is_running() ==> final(self)@ == old(self)@ && (r matches Err(
                TimeTrackerError::Platform(m),
            ) && m@ == "Timer is not running"@),
    {
        let now = clock::current_time_millis();
        self.pause_at(now)
    }

    /// Stops the timer: it becomes idle with a full work phase ahead. Stopping
    /// a work phase counts an interruption and ends the streak.
    pub fn stop(&mut self) -> (r: Result<(), TimeTrackerError>)
        requires
            old(self)@.wf(),
            old(self)@.state is Working ==> old(self)@.stats.total_interrupted < u32::MAX,
        ensures
            r is Ok,
            final(self)@.wf(),
            final(self).spec_callbacks() == old(self).spec_callbacks(),
            final(self)@ == old(self)@.after_stop(),
    {
        match self.state {
            PomodoroState::Working => {
                self.handle_interruption();
            },
            _ => {
                self.state = PomodoroState::Idle;
                self.remaining_time = self.config.work_duration;
                self.start_time = None;
            },
        }
        Ok(())
    }

    /// Advances the timer to time `now` (local day `today`): a counting phase
    /// that has run out completes (and `on_complete` is called), otherwise the
    /// remaining time shrinks by the time elapsed since the phase started and
    /// `on_tick` receives it.
    pub fn update_at(&mut self, now: i64, today: i64) -> (r: Result<(), TimeTrackerError>)
        requires
            old(self)@.wf(),
            old(self)@.completion_fits(),
        ensures
            r is Ok,
            final(self)@.wf(),
            final(self).spec_callbacks() == old(self).spec_callbacks(),
            final(self)@ == old(self)@.after_update(now, today),
    {
        match self.state {
            PomodoroState::Working | PomodoroState::ShortBreak | PomodoroState::LongBreak => {
                if let Some(start) = self.start_time {
                    let elapsed = clock::elapsed_ms(start, now);
                    if elapsed >= self.remaining_time {
                        self.handle_completion(now, today);
                    } else {
                        self.remaining_time = self.remaining_time - elapsed;
                        self.callbacks.on_tick(self.remaining_time);
                        self.calls = Ghost(self.calls@.push(TimerCall::Tick(self.remaining_time as nat)));
                    }
                }
            },
            _ => {},
        }
        Ok(())
    }

    /// `update_at` at the time and local day the clock reads now.
    pub fn update(&mut self) -> (r: Result<(), TimeTrackerError>)
        requires
            old(self)@.wf(),
            old(self)@.completion_fits(),
        ensures
            r is Ok,
            final(self)@.wf(),
            final(self).spec_callbacks() == old(self).spec_callbacks(),
            exists|now: i64, today: i64| final(self)@ == old(self)@.after_update(now, today)
                && #[trigger] clock::day_of_instant(now as int, Some(today)),
    {
        let now = clock::current_time_millis();
        let today = clock::local_day_at(now);
        self.update_at(now, today)
    }

    fn handle_completion(&mut self, now: i64, today: i64)
        requires
            old(self)@.wf(),
            old(self)@.completion_fits(),
            old(self)@.state.is_running(),
        ensures
            final(self)@.wf(),
            final(self).spec_callbacks() == old(self).spec_callbacks(),
            final(self)@ == old(self)@.after_completion(now, today),
    {
        match self.state {
            PomodoroState::Working => {
                self.completed_count = self.completed_count + 1;
                self.record_work(today);
                if self.completed_count >= self.config.long_break_interval {
                    self.state = if self.config.auto_start_breaks {
                        PomodoroState::LongBreak
                    } else {
                        PomodoroState::Idle
                    };
                    self.completed_count = 0;
                    self.remaining_time = self.config.long_break_duration;
                } else {
                    self.state = if self.config.auto_start_breaks {
                        PomodoroState::ShortBreak
                    } else {
                        PomodoroState::Idle
                    };
                    self.remaining_time = self.config.short_break_duration;
                }
                self.callbacks.on_complete();
                self.calls = Ghost(self.calls@.push(TimerCall::Complete));
            },
            _ => {
                let length = match self.state {
                    PomodoroState::ShortBreak => self.config.short_break_duration,
                    _ => self.config.long_break_duration,
                };
                self.stats.total_break_time = self.stats.total_break_time + length;
                self.state = if self.config.auto_start_pomodoros {
                    PomodoroState::Working
                } else {
                    PomodoroState::Idle
                };
                self.remaining_time = self.config.work_duration;
                self.callbacks.on_complete();
                self.calls = Ghost(self.calls@.push(TimerCall::Complete));
            },
        }
        self.start_time = match self.state {
            PomodoroState::Idle => None,
            _ => Some(now),
        };
    }

    fn record_work(&mut self, today: i64)
        requires
            old(self)@.stats.wf(),
            old(self)@.state is Working,
            old(self)@.completion_fits(),
        ensures
            final(self)@ == (TimerView {
                stats: old(self)@.stats.after_work(old(self)@.config.work_duration as nat, today),
                ..old(self)@
            }),
            final(self).spec_callbacks() == old(self).spec_callbacks(),
            final(self)@.stats.wf(),
    {
        proof {
            lemma_record_day_total(self.stats.daily_completed@, today);
        }
        self.stats.total_completed = self.stats.total_completed + 1;
        self.stats.total_work_time = self.stats.total_work_time + self.config.work_duration;
        self.stats.current_streak = self.stats.current_streak + 1;
        if self.stats.current_streak > self.stats.longest_streak {
            self.stats.longest_streak = self.stats.current_streak;
        }
        let n = self.stats.daily_completed.len();
        if n > 0 && self.stats.daily_completed[n - 1].0 == today {
            let (day, count) = self.stats.daily_completed[n - 1];
            proof {
                lemma_last_le_total(self.stats.daily_completed@);
            }
            self.stats.daily_completed.set(n - 1, (day, count + 1));
        } else {
            self.stats.daily_completed.push((today, 1));
        }
    }

    fn handle_interruption(&mut self)
        requires
            old(self)@.wf(),
            old(self)@.state is Working,
            old(self)@.stats.total_interrupted < u32::MAX,
        ensures
            final(self)@.wf(),
            final(self).spec_callbacks() == old(self).spec_callbacks(),
            final(self)@ == old(self)@.after_stop(),
    {
        self.stats.total_interrupted = self.stats.total_interrupted + 1;
        self.stats.current_streak = 0;
        self.state = PomodoroState::Idle;
        self.remaining_time = self.config.work_duration;
        self.start_time = None;
    }

    fn update_remaining_time(&mut self, now: i64)
        ensures
            final(self)@ == (TimerView {
                remaining_time: match old(self)@.start_time {
                    Some(s) => if old(self)@.remaining_time >= clock::elapsed_between(s, now) {
                        (old(self)@.remaining_time - clock::elapsed_between(s, now)) as nat
                    } else {
                        0
                    },
                    None => old(self)@.remaining_time,
                },
                ..old(self)@
            }),
            final(self).spec_callbacks() == old(self).spec_callbacks(),
    {
        if let Some(start) = self.start_time {
            let elapsed = clock::elapsed_ms(start, now);
            self.remaining_time = if self.remaining_time >= elapsed {
                self.remaining_time - elapsed
            } else {
                0
            };
        }
    }

    /// The callbacks the timer calls.
    pub fn callbacks(&self) -> (c: &C)
        ensures
            *c == self.spec_callbacks(),
    {
        &self.callbacks
    }

    /// The current phase.
    pub fn get_state(&self) -> (s: PomodoroState)
        ensures
            s == self@.state,
    {
        self.state
    }

    /// Milliseconds left in the current phase.
    pub fn get_remaining_time(&self) -> (t: u64)
        ensures
            t == self@.remaining_time,
    {
        self.remaining_time
    }

    /// What remains and the full length of the current (or paused) phase, in
    /// milliseconds; `None` for an idle timer, whose progress is zero.
    pub fn progress_parts(&self) -> (p: Option<(u64, u64)>)
        ensures
            self@.state is Idle ==> p is None,
            !(self@.state is Idle) ==> p == Some(
                (self@.remaining_time as u64, self@.config.phase_duration(self@.state) as u64),
            ),
    {
        let total = match self.state {
            PomodoroState::Working => self.config.work_duration,
            PomodoroState::ShortBreak => self.config.short_break_duration,
            PomodoroState::LongBreak => self.config.long_break_duration,
            PomodoroState::Paused(prev) => match prev {
                PreviousState::Working => self.config.work_duration,
                PreviousState::ShortBreak => self.config.short_break_duration,
                PreviousState::LongBreak => self.config.long_break_duration,
            },
            PomodoroState::Idle => {
                return None;
            },
        };
        Some((self.remaining_time, total))
    }

    /// A copy of the totals.
    pub fn get_stats(&self) -> (r: Result<PomodoroStats, TimeTrackerError>)
        ensures
            r matches Ok(s) && s@ == self@.stats,
    {
        Ok(self.stats.duplicate())
    }

    /// The current settings.
    pub fn get_config(&self) -> (c: PomodoroConfig)
        ensures
            c == self@.config,
    {
        self.config
    }

    /// Replaces the settings; the remaining time becomes the full length of the
    /// current (or paused) phase, a work phase when idle.
    pub fn update_config(&mut self, config: PomodoroConfig)
        requires
            old(self)@.wf(),
        ensures
            final(self)@.wf(),
            final(self).spec_callbacks() == old(self).spec_callbacks(),
            final(self)@ == old(self)@.after_config(config),
    {
        self.config = config;
        self.remaining_time = match self.state {
            PomodoroState::Working => self.config.work_duration,
            PomodoroState::ShortBreak => self.config.short_break_duration,
            PomodoroState::LongBreak => self.config.long_break_duration,
            PomodoroState::Paused(prev) => match prev {
                PreviousState::Working => self.config.work_duration,
                PreviousState::ShortBreak => self.config.short_break_duration,
                PreviousState::LongBreak => self.config.long_break_duration,
            },
            PomodoroState::Idle => self.config.work_duration,
        };
    }

    /// The timer is counting down a work phase or a break.
    pub fn is_active(&self) -> (b: bool)
        ensures
            b == self@.state.is_running(),
    {
        match self.state {
            PomodoroState::Working | PomodoroState::ShortBreak | PomodoroState::LongBreak => true,
            _ => false,
        }
    }

    /// Sets the length of work phases (milliseconds); the phase under way keeps
    /// its remaining time.
    pub fn set_work_duration(&mut self, duration: u64)
        requires
            old(self)@.wf(),
        ensures
            final(self)@.wf(),
            final(self).spec_callbacks() == old(self).spec_callbacks(),
            final(self)@ == (TimerView {
                config: PomodoroConfig { work_duration: duration, ..old(self)@.config },
                ..old(self)@
            }),
    {
        self.config.work_duration = duration;
    }

    /// Attaches the coming work to a project.
    pub fn set_project(&mut self, project_id: i64)
        requires
            old(self)@.wf(),
        ensures
            final(self)@.wf(),
            final(self).spec_callbacks() == old(self).spec_callbacks(),
            final(self)@ == (TimerView { project: Some(project_id), ..old(self)@ }),
    {
        self.project = Some(project_id);
    }

    /// The project the work is attached to.
    pub fn get_project(&self) -> (p: Option<i64>)
        ensures
            p == self@.project,
    {
        self.project
    }

    /// Labels the coming work with `tags`.
    pub fn set_tags(&mut self, tags: Vec<String>)
        requires
            old(self)@.wf(),
        ensures
            final(self)@.wf(),
            final(self).spec_callbacks() == old(self).spec_callbacks(),
            final(self)@ == (TimerView { tags: tags@, ..old(self)@ }),
    {
        self.tags = tags;
    }

    /// The labels of the work.
    pub fn get_tags(&self) -> (t: &Vec<String>)
        ensures
            t@ == self@.tags,
    {
        &self.tags
    }

    /// Checks that moving from the current phase to `new_state` is one of the
    /// timer's transitions: idle or a paused work phase to work, work to either
    /// break, a break back to work, a paused break back to the same break.
    pub fn validate_state_transition(&self, new_state: PomodoroState) -> (r: Result<(), TimeTrackerError>)
        ensures
            r is Ok <==> transition_allowed(self@.state, new_state),
            r matches Err(e) ==> (e matches TimeTrackerError::State(m) && m@ == "Invalid state transition: "@
                + state_text(self@.state) + " -> "@ + state_text(new_state)),
    {
        if transition_ok(self.state, new_state) {
            Ok(())
        } else {
            let mut msg = text("Invalid state transition: ");
            msg.append(state_name(self.state));
            msg.append(" -> ");
            msg.append(state_name(new_state));
            Err(TimeTrackerError::State(msg))
        }
    }
}

/// The transitions the timer allows between phases.
pub open spec fn transition_allowed(from: PomodoroState, to: PomodoroState) -> bool {
    match (from, to) {
        (PomodoroState::Paused(PreviousState::Working), PomodoroState::Working) => true,
        (PomodoroState::Paused(PreviousState::ShortBreak), PomodoroState::ShortBreak) => true,
        (PomodoroState::Paused(PreviousState::LongBreak), PomodoroState::LongBreak) => true,
        (PomodoroState::Idle, PomodoroState::Working) => true,
        (PomodoroState::Working, PomodoroState::ShortBreak) => true,
        (PomodoroState::Working, PomodoroState::LongBreak) => true,
        (PomodoroState::ShortBreak, PomodoroState::Working) => true,
        (PomodoroState::LongBreak, PomodoroState::Working) => true,
        _ => false,
    }
}

fn transition_ok(from: PomodoroState, to: PomodoroState) -> (b: bool)
    ensures
        b == transition_allowed(from, to),
{
    match (from, to) {
        (PomodoroState::Paused(PreviousState::Working), PomodoroState::Working) => true,
        (PomodoroState::Paused(PreviousState::ShortBreak), PomodoroState::ShortBreak) => true,
        (PomodoroState::Paused(PreviousState::LongBreak), PomodoroState::LongBreak) => true,
        (PomodoroState::Idle, PomodoroState::Working) => true,
        (PomodoroState::Working, PomodoroState::ShortBreak) => true,
        (PomodoroState::Working, PomodoroState::LongBreak) => true,
        (PomodoroState::ShortBreak, PomodoroState::Working) => true,
        (PomodoroState::LongBreak, PomodoroState::Working) => true,
        _ => false,
    }
}

/// The name of a phase as its `Debug` form writes it.
pub open spec fn state_text(s: PomodoroState) -> Seq<char> {
    match s {
        PomodoroState::Idle => "Idle"@,
        PomodoroState::Working => "Working"@,
        PomodoroState::ShortBreak => "ShortBreak"@,
        PomodoroState::LongBreak => "LongBreak"@,
        PomodoroState::Paused(PreviousState::Working) => "Paused(Working)"@,
        PomodoroState::Paused(PreviousState::ShortBreak) => "Paused(ShortBreak)"@,
        PomodoroState::Paused(PreviousState::LongBreak) => "Paused(LongBreak)"@,
    }
}

/// The name of a phase as its `Debug` form writes it.
pub fn state_name(s: PomodoroState) -> (r: &'static str)
    ensures
        r@ == state_text(s),
{
    match s {
        PomodoroState::Idle => "Idle",
        PomodoroState::Working => "Working",
        PomodoroState::ShortBreak => "ShortBreak",
        PomodoroState::LongBreak => "LongBreak",
        PomodoroState::Paused(PreviousState::Working) => "Paused(Working)",
        PomodoroState::Paused(PreviousState::ShortBreak) => "Paused(ShortBreak)",
        PomodoroState::Paused(PreviousState::LongBreak) => "Paused(LongBreak)",
    }
}


/// Pausing a counting phase and starting again always gives a fresh work phase
/// with its full duration.
pub proof fn law_pause_then_start(v: TimerView, t1: i64, t2: i64)
    requires
        v.wf(),
        v.state.is_running(),
    ensures
        v.after_pause(t1).after_start(t2).state == PomodoroState::Working,
        v.after_pause(t1).after_start(t2).remaining_time == v.config.work_duration,
        v.after_pause(t1).after_start(t2).wf(),
        v.after_pause(t1).after_start(t2).stats == v.stats,
{
}

/// Pausing keeps the phase to return to and never adds time: what remains
/// after a pause is at most what remained before it.
pub proof fn law_pause_keeps_phase(v: TimerView, now: i64)
    requires
        v.wf(),
        v.state.is_running(),
    ensures
        v.after_pause(now).state is Paused,
        v.after_pause(now).remaining_time <= v.remaining_time,
        v.after_pause(now).state->Paused_0 == match v.state {
            PomodoroState::ShortBreak => PreviousState::ShortBreak,
            PomodoroState::LongBreak => PreviousState::LongBreak,
            _ => PreviousState::Working,
        },
{
}

/// Each `update` of a counting phase makes exactly one call into the
/// callbacks: `on_complete` where the phase has run out, else `on_tick` with
/// the time that remains; in any other phase it makes none.
pub proof fn law_update_calls(v: TimerView, now: i64, today: i64)
    ensures
        v.state.is_running() && v.start_time is Some ==> {
            let elapsed = clock::elapsed_between(v.start_time.unwrap(), now);
            let after = v.after_update(now, today);
            &&& after.calls == v.calls.push(
                if elapsed >= v.remaining_time {
                    TimerCall::Complete
                } else {
                    TimerCall::Tick(after.remaining_time)
                },
            )
        },
        !(v.state.is_running() && v.start_time is Some) ==> v.after_update(now, today).calls == v.calls,
{
}

/// A timer that is not counting down is left alone by `update`.
pub proof fn law_update_idle_or_paused(v: TimerView, now: i64, today: i64)
    requires
        !v.state.is_running(),
    ensures
        v.after_update(now, today) == v,
{
}

/// Completing a work phase counts one more completion, lengthens the current
/// streak by one, adds the work duration to the work time and one to today's
/// count; the longest streak is never below the current one.
pub proof fn law_work_completion_counts(v: TimerView, now: i64, today: i64)
    requires
        v.wf(),
        v.completion_fits(),
        v.state is Working,
    ensures
        v.after_completion(now, today).stats.total_completed == v.stats.total_completed + 1,
        v.after_completion(now, today).stats.current_streak == v.stats.current_streak + 1,
        v.after_completion(now, today).stats.total_work_time == v.stats.total_work_time
            + v.config.work_duration,
        v.after_completion(now, today).stats.longest_streak >= v.after_completion(
            now,
            today,
        ).stats.current_streak,
        daily_total(v.after_completion(now, today).stats.daily_completed) == daily_total(
            v.stats.daily_completed,
        ) + 1,
        v.after_completion(now, today).stats.total_interrupted == v.stats.total_interrupted,
{
    lemma_record_day_total(v.stats.daily_completed, today);
}

/// Every `long_break_interval`-th completed work phase is followed by a long
/// break (started at once when breaks start automatically), and the count
/// towards the next long break starts again from zero; other work phases are
/// followed by a short break.
pub proof fn law_long_break_interval(v: TimerView, now: i64, today: i64)
    requires
        v.wf(),
        v.state is Working,
    ensures
        v.completed_count + 1 >= v.config.long_break_interval ==> {
            &&& v.after_completion(now, today).remaining_time == v.config.long_break_duration
            &&& v.after_completion(now, today).completed_count == 0
            &&& v.config.auto_start_breaks ==> v.after_completion(now, today).state
                == PomodoroState::LongBreak
        },
        v.completed_count + 1 < v.config.long_break_interval ==> {
            &&& v.after_completion(now, today).remaining_time == v.config.short_break_duration
            &&& v.after_completion(now, today).completed_count == v.completed_count + 1
            &&& v.config.auto_start_breaks ==> v.after_completion(now, today).state
                == PomodoroState::ShortBreak
        },
        !v.config.auto_start_breaks ==> v.after_completion(now, today).state
            == PomodoroState::Idle,
{
}

/// After a break runs out the next phase is work (at once when pomodoros start
/// automatically, otherwise after an idle pause) with the full work duration.
pub proof fn law_break_completion(v: TimerView, now: i64, today: i64)
    requires
        v.wf(),
        v.state is ShortBreak || v.state is LongBreak,
    ensures
        v.after_completion(now, today).remaining_time == v.config.work_duration,
        v.after_completion(now, today).state == if v.config.auto_start_pomodoros {
            PomodoroState::Working
        } else {
            PomodoroState::Idle
        },
        v.after_completion(now, today).stats.total_completed == v.stats.total_completed,
        v.after_completion(now, today).stats.current_streak == v.stats.current_streak,
{
}

/// Completing a counting phase calls `on_complete` exactly once. A work phase
/// adds one completion and its length to the work time and lengthens the
/// streak by one; a break adds its own length to the break time and leads to
/// work or idleness with a full work phase ahead. Either way the longest
/// streak becomes the larger of itself and the current one.
pub proof fn law_completion(v: TimerView, now: i64, today: i64)
    requires
        v.wf(),
        v.state.is_running(),
    ensures
        v.after_completion(now, today).calls == v.calls.push(TimerCall::Complete),
        v.state is Working ==> {
            let s = v.after_completion(now, today).stats;
            &&& s.total_completed == v.stats.total_completed + 1
            &&& s.current_streak == v.stats.current_streak + 1
            &&& s.total_work_time == v.stats.total_work_time + v.config.work_duration
            &&& s.total_break_time == v.stats.total_break_time
            &&& s.longest_streak == if v.stats.longest_streak >= s.current_streak {
                v.stats.longest_streak
            } else {
                s.current_streak
            }
        },
        !(v.state is Working) ==> {
            let after = v.after_completion(now, today);
            &&& after.stats.total_break_time == v.stats.total_break_time + if v.state is ShortBreak {
                v.config.short_break_duration
            } else {
                v.config.long_break_duration
            }
            &&& after.stats.total_completed == v.stats.total_completed
            &&& after.stats.total_work_time == v.stats.total_work_time
            &&& after.stats.longest_streak == v.stats.longest_streak
            &&& after.state is Working || after.state is Idle
            &&& after.remaining_time == v.config.work_duration
        },
        v.after_completion(now, today).stats.longest_streak >= v.after_completion(now, today).stats.current_streak,
{
}

/// A completed work phase is credited to the day it completes on, and only
/// there: afterwards the last per-day entry is for `today`, one more than
/// before if the last entry was already for `today` and otherwise a new
/// entry of one; every earlier entry is unchanged.
pub proof fn law_completion_credits_today(v: TimerView, now: i64, today: i64)
    requires
        v.wf(),
        v.completion_fits(),
        v.state is Working,
    ensures
        ({
            let d = v.stats.daily_completed;
            let d2 = v.after_completion(now, today).stats.daily_completed;
            &&& d2.len() > 0
            &&& d2.last().0 == today
            &&& forall|i: int| 0 <= i < d2.len() - 1 ==> d2[i] == d[i]
            &&& (d.len() > 0 && d.last().0 == today) ==> d2.len() == d.len() && d2.last().1 == d.last().1 + 1
            &&& !(d.len() > 0 && d.last().0 == today) ==> d2.len() == d.len() + 1 && d2.last().1 == 1
        }),
{
    let d = v.stats.daily_completed;
    if d.len() > 0 {
        lemma_last_le_total(d);
    }
}

/// Stopping during work counts an interruption and ends the streak without
/// touching the completions; stopping in any other phase changes no total.
/// Either way the timer is idle with a full work phase ahead.
pub proof fn law_stop(v: TimerView)
    requires
        v.wf(),
    ensures
        v.after_stop().state == PomodoroState::Idle,
        v.after_stop().remaining_time == v.config.work_duration,
        v.after_stop().start_time is None,
        v.after_stop().stats.total_completed == v.stats.total_completed,
        v.state is Working ==> v.after_stop().stats.total_interrupted == v.stats.total_interrupted
            + 1 && v.after_stop().stats.current_streak == 0,
        !(v.state is Working) ==> v.after_stop().stats == v.stats,
        v.after_stop().wf(),
{
}

/// Under new settings the remaining time is the full length of the phase the
/// timer is in, or returns to when paused.
pub proof fn law_config_resets_remaining(v: TimerView, c: PomodoroConfig)
    ensures
        v.after_config(c).remaining_time == c.phase_duration(v.state),
        v.after_config(c).state == v.state,
        v.after_config(c).stats == v.stats,
{
}

} // verus!
