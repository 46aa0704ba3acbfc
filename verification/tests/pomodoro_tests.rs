use std::cell::Cell;
use time_tracker::pomodoro::{
    NoCallbacks, PomodoroCallbacks, PomodoroConfig, PomodoroState, PomodoroTimer, PreviousState,
};
use time_tracker::error::TimeTrackerError;

const DAY: i64 = 739_000;

fn test_config() -> PomodoroConfig {
    PomodoroConfig {
        work_duration: 2000,
        short_break_duration: 1000,
        long_break_duration: 3000,
        long_break_interval: 2,
        ..PomodoroConfig::default()
    }
}

fn create_test_timer() -> PomodoroTimer<NoCallbacks> {
    PomodoroTimer::new(test_config(), NoCallbacks)
}

fn progress<C: PomodoroCallbacks>(timer: &PomodoroTimer<C>) -> f64 {
    match timer.progress_parts() {
        Some((remaining, total)) => 1.0 - remaining as f64 / total as f64,
        None => 0.0,
    }
}

#[test]
fn test_basic_workflow() {
    let mut timer = create_test_timer();

    timer.start().unwrap();
    assert_eq!(timer.get_state(), PomodoroState::Working);

    timer.pause().unwrap();
    assert!(matches!(timer.get_state(), PomodoroState::Paused(_)));

    timer.start().unwrap();
    assert_eq!(timer.get_state(), PomodoroState::Working);

    timer.stop().unwrap();
    assert_eq!(timer.get_state(), PomodoroState::Idle);
}

#[test]
fn test_completion() {
    let mut timer = create_test_timer();
    timer.start_at(0).unwrap();
    timer.update_at(3000, DAY).unwrap();

    let stats = timer.get_stats().unwrap();
    assert_eq!(stats.total_completed, 1);
    assert_eq!(stats.current_streak, 1);
}

#[test]
fn test_interruption() {
    let mut timer = create_test_timer();
    timer.start().unwrap();

    timer.stop().unwrap();

    let stats = timer.get_stats().unwrap();
    assert_eq!(stats.total_interrupted, 1);
    assert_eq!(stats.current_streak, 0);
}

#[test]
fn test_long_break_interval() {
    let mut timer = create_test_timer();

    timer.start_at(0).unwrap();
    timer.update_at(3000, DAY).unwrap();
    assert!(matches!(timer.get_state(), PomodoroState::ShortBreak | PomodoroState::Idle));

    timer.start_at(3000).unwrap();
    timer.update_at(6000, DAY).unwrap();
    assert!(matches!(timer.get_state(), PomodoroState::LongBreak | PomodoroState::Idle));
}

#[test]
fn test_progress_calculation() {
    let mut timer = create_test_timer();

    assert_eq!(progress(&timer), 0.0);

    timer.start_at(0).unwrap();
    timer.update_at(1000, DAY).unwrap();

    let p = progress(&timer);
    assert!(p > 0.45 && p < 0.55);
}

#[test]
fn test_auto_start_features() {
    let config = PomodoroConfig {
        work_duration: 2000,
        short_break_duration: 1000,
        long_break_duration: 3000,
        long_break_interval: 2,
        auto_start_breaks: true,
        auto_start_pomodoros: true,
        ..PomodoroConfig::default()
    };
    let mut timer = PomodoroTimer::new(config, NoCallbacks);

    timer.start_at(0).unwrap();
    timer.update_at(3000, DAY).unwrap();
    assert_eq!(timer.get_state(), PomodoroState::ShortBreak);

    timer.update_at(5000, DAY).unwrap();
    assert_eq!(timer.get_state(), PomodoroState::Working);
}

#[test]
fn test_stats_tracking() {
    let mut timer = create_test_timer();

    timer.start_at(0).unwrap();
    timer.update_at(3000, DAY).unwrap();

    let stats = timer.get_stats().unwrap();
    assert_eq!(stats.total_completed, 1);
    assert_eq!(stats.total_work_time, 2000);
    assert_eq!(stats.current_streak, 1);
    assert_eq!(stats.longest_streak, 1);
    assert_eq!(stats.total_interrupted, 0);
    assert_eq!(stats.daily_completed.len(), 1);

    timer.start_at(4000).unwrap();
    timer.update_at(5000, DAY).unwrap();
    timer.stop().unwrap();

    let stats = timer.get_stats().unwrap();
    assert_eq!(stats.total_completed, 1);
    assert_eq!(stats.total_interrupted, 1);
    assert_eq!(stats.current_streak, 0);
}

#[test]
fn test_invalid_state_transitions() {
    let mut timer = create_test_timer();

    assert!(timer.pause().is_err());

    timer.start().unwrap();
    assert!(timer.start().is_err());

    timer.stop().unwrap();
    assert!(timer.update().is_ok());
}

#[test]
fn start_error_names_running_timer() {
    let mut timer = create_test_timer();
    timer.start_at(0).unwrap();
    match timer.start_at(10) {
        Err(TimeTrackerError::Platform(m)) => assert_eq!(m, "Timer is already running"),
        other => panic!("unexpected {:?}", other),
    }
    assert_eq!(timer.get_remaining_time(), 2000);
}

#[test]
fn pause_error_names_idle_timer() {
    let mut timer = create_test_timer();
    match timer.pause_at(10) {
        Err(TimeTrackerError::Platform(m)) => assert_eq!(m, "Timer is not running"),
        other => panic!("unexpected {:?}", other),
    }
    assert_eq!(timer.get_state(), PomodoroState::Idle);
}

#[test]
fn pause_keeps_what_remains_and_start_begins_afresh() {
    let mut timer = create_test_timer();
    timer.start_at(1000).unwrap();
    timer.pause_at(1500).unwrap();
    assert_eq!(timer.get_state(), PomodoroState::Paused(PreviousState::Working));
    assert_eq!(timer.get_remaining_time(), 1500);
    timer.start_at(9000).unwrap();
    assert_eq!(timer.get_state(), PomodoroState::Working);
    assert_eq!(timer.get_remaining_time(), 2000);
}

#[test]
fn update_counts_down_without_completing() {
    let mut timer = create_test_timer();
    timer.start_at(0).unwrap();
    timer.update_at(500, DAY).unwrap();
    assert_eq!(timer.get_state(), PomodoroState::Working);
    assert_eq!(timer.get_remaining_time(), 1500);
}

#[test]
fn update_leaves_idle_and_paused_alone() {
    let mut timer = create_test_timer();
    timer.update_at(100_000, DAY).unwrap();
    assert_eq!(timer.get_state(), PomodoroState::Idle);
    assert_eq!(timer.get_remaining_time(), 2000);
    timer.start_at(0).unwrap();
    timer.pause_at(500).unwrap();
    timer.update_at(100_000, DAY).unwrap();
    assert_eq!(timer.get_state(), PomodoroState::Paused(PreviousState::Working));
    assert_eq!(timer.get_remaining_time(), 1500);
}

#[test]
fn break_completion_counts_break_time() {
    let config = PomodoroConfig { auto_start_breaks: true, ..test_config() };
    let mut timer = PomodoroTimer::new(config, NoCallbacks);
    timer.start_at(0).unwrap();
    timer.update_at(2000, DAY).unwrap();
    assert_eq!(timer.get_state(), PomodoroState::ShortBreak);
    assert_eq!(timer.get_remaining_time(), 1000);
    timer.update_at(3000, DAY).unwrap();
    assert_eq!(timer.get_state(), PomodoroState::Idle);
    let stats = timer.get_stats().unwrap();
    assert_eq!(stats.total_break_time, 1000);
    assert_eq!(stats.total_completed, 1);
}

#[test]
fn second_work_phase_brings_long_break() {
    let config = PomodoroConfig { auto_start_breaks: true, ..test_config() };
    let mut timer = PomodoroTimer::new(config, NoCallbacks);
    timer.start_at(0).unwrap();
    timer.update_at(2000, DAY).unwrap();
    assert_eq!(timer.get_state(), PomodoroState::ShortBreak);
    assert!(timer.start_at(2500).is_err());
    timer.update_at(3000, DAY).unwrap();
    assert_eq!(timer.get_state(), PomodoroState::Idle);
    timer.start_at(3000).unwrap();
    timer.update_at(5000, DAY).unwrap();
    assert_eq!(timer.get_state(), PomodoroState::LongBreak);
    assert_eq!(timer.get_remaining_time(), 3000);
    let stats = timer.get_stats().unwrap();
    assert_eq!(stats.total_completed, 2);
    assert_eq!(stats.current_streak, 2);
    assert_eq!(stats.longest_streak, 2);
    assert_eq!(stats.daily_completed, vec![(DAY, 2)]);
}

#[test]
fn update_config_resets_remaining_time() {
    let mut timer = create_test_timer();
    timer.start_at(0).unwrap();
    timer.update_at(500, DAY).unwrap();
    let config = PomodoroConfig { work_duration: 9000, ..test_config() };
    timer.update_config(config);
    assert_eq!(timer.get_remaining_time(), 9000);
    assert_eq!(timer.get_config().work_duration, 9000);
}

#[test]
fn project_and_tags_are_kept() {
    let mut timer = create_test_timer();
    assert_eq!(timer.get_project(), None);
    timer.set_project(7);
    timer.set_tags(vec!["deep".to_string(), "work".to_string()]);
    assert_eq!(timer.get_project(), Some(7));
    assert_eq!(timer.get_tags(), &vec!["deep".to_string(), "work".to_string()]);
}

#[test]
fn validate_state_transition_follows_the_phases() {
    let mut timer = create_test_timer();
    assert!(timer.validate_state_transition(PomodoroState::Working).is_ok());
    assert!(timer.validate_state_transition(PomodoroState::ShortBreak).is_err());
    timer.start_at(0).unwrap();
    assert!(timer.validate_state_transition(PomodoroState::ShortBreak).is_ok());
    assert!(timer.validate_state_transition(PomodoroState::LongBreak).is_ok());
    assert!(timer.validate_state_transition(PomodoroState::Idle).is_err());
}

struct Counting {
    completed: Cell<u32>,
    ticks: Cell<u32>,
}

impl PomodoroCallbacks for Counting {
    fn on_tick(&self, _remaining: u64) {
        self.ticks.set(self.ticks.get() + 1);
    }

    fn on_complete(&self) {
        self.completed.set(self.completed.get() + 1);
    }

    fn on_pause(&self) {}

    fn on_resume(&self) {}
}

#[test]
fn callbacks_hear_ticks_and_completions() {
    let callbacks = Counting { completed: Cell::new(0), ticks: Cell::new(0) };
    let mut timer = PomodoroTimer::new(test_config(), callbacks);
    timer.start_at(0).unwrap();
    timer.update_at(500, DAY).unwrap();
    timer.update_at(5000, DAY).unwrap();
    assert_eq!(timer.callbacks().ticks.get(), 1);
    assert_eq!(timer.callbacks().completed.get(), 1);
}
