use time_tracker::config::{default_max_backup_count, default_vacuum_threshold, Config, Theme};
use time_tracker::error::TimeTrackerError;

fn config_message(c: &Config) -> Option<String> {
    match c.validate() {
        Ok(()) => None,
        Err(TimeTrackerError::Config(m)) => Some(m),
        Err(other) => panic!("unexpected {:?}", other),
    }
}

#[test]
fn test_config_validation() {
    let mut config = Config::default();
    assert!(config.validate().is_ok());

    config.pomodoro.work_duration = 30 * 1000;
    assert!(config.validate().is_err());

    config = Config::default();
    config.ui.window_width = 300;
    assert!(config.validate().is_err());

    config = Config::default();
    config.ui.font_size = 6;
    assert!(config.validate().is_err());

    config = Config::default();
    config.shutdown.enabled = true;
    config.shutdown.delay_minutes = 0;
    assert!(config.validate().is_err());
}

#[test]
fn test_default_values() {
    let config = Config::default();

    assert_eq!(config.general.language, "en");
    assert_eq!(config.pomodoro.work_duration, 25 * 60 * 1000);
    assert_eq!(config.ui.theme, Theme::System);
    assert!(config.storage.backup_enabled);
    assert!(!config.shutdown.enabled);
}

#[test]
fn validation_names_the_first_rule_broken() {
    let mut c = Config::default();
    c.pomodoro.work_duration = 59_999;
    c.ui.font_size = 40;
    assert_eq!(config_message(&c).as_deref(), Some("Work duration must be at least 1 minute"));

    let mut c = Config::default();
    c.pomodoro.short_break_duration = 29_999;
    assert_eq!(config_message(&c).as_deref(), Some("Short break duration must be at least 30 seconds"));

    let mut c = Config::default();
    c.storage.max_backup_count = 0;
    assert_eq!(config_message(&c).as_deref(), Some("Max backup count must be greater than 0"));

    let mut c = Config::default();
    c.storage.vacuum_threshold = 0;
    assert_eq!(config_message(&c).as_deref(), Some("Vacuum threshold must be greater than 0"));

    let mut c = Config::default();
    c.storage.backup_interval = 59_999;
    assert_eq!(config_message(&c).as_deref(), Some("Backup interval must be at least 1 minute"));

    let mut c = Config::default();
    c.ui.window_height = 299;
    assert_eq!(config_message(&c).as_deref(), Some("Window size must be at least 400x300"));

    let mut c = Config::default();
    c.ui.font_size = 33;
    assert_eq!(config_message(&c).as_deref(), Some("Font size must be between 8 and 32"));

    let mut c = Config::default();
    c.shutdown.enabled = true;
    c.shutdown.delay_minutes = 0;
    assert_eq!(config_message(&c).as_deref(), Some("Shutdown delay must be at least 1 minute"));
}

#[test]
fn validation_accepts_the_bounds() {
    let mut c = Config::default();
    c.pomodoro.work_duration = 60_000;
    c.pomodoro.short_break_duration = 30_000;
    c.storage.backup_interval = 60_000;
    c.ui.window_width = 400;
    c.ui.window_height = 300;
    c.ui.font_size = 8;
    assert!(c.validate().is_ok());
    c.ui.font_size = 32;
    assert!(c.validate().is_ok());
}

#[test]
fn migrate_moves_one_version_forward() {
    let mut c = Config::default();
    c.migrate().unwrap();
    assert_eq!(c.version, Some(1));
    c.migrate().unwrap();
    assert_eq!(c.version, Some(2));
    c.migrate().unwrap();
    assert_eq!(c.version, Some(2));
}

#[test]
fn storage_defaults() {
    assert_eq!(default_max_backup_count(), 7);
    assert_eq!(default_vacuum_threshold(), 100 * 1024 * 1024);
    let c = Config::default();
    assert_eq!(c.storage.max_backup_count, 7);
    assert_eq!(c.storage.backup_interval, 24 * 60 * 60 * 1000);
}
