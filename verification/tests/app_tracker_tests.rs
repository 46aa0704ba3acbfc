use time_tracker::app_tracker::{AppCategory, AppTracker, AppUsageConfig, AppUsageData, AppUsageStats};
use time_tracker::error::TimeTrackerError;
use time_tracker::platform::WindowInfo;

fn current_time_millis() -> i64 {
    chrono::Utc::now().timestamp_millis()
}

fn window(app: &str, title: &str) -> WindowInfo {
    WindowInfo {
        app_name: app.to_string(),
        title: title.to_string(),
        window_title: title.to_string(),
        process_name: "code.exe".to_string(),
        process_id: 1234,
    }
}

#[test]
fn test_app_category_detection() {
    let config = AppUsageConfig::default();
    let tracker = AppTracker::new(config).expect("Failed to create AppTracker");

    assert_eq!(tracker.get_app_category("Visual Studio Code"), AppCategory::Development);
    assert_eq!(tracker.get_app_category("Microsoft Excel"), AppCategory::Productivity);
    assert_eq!(tracker.get_app_category("Unknown App"), AppCategory::Other);
}

#[test]
fn test_productivity_detection() {
    let config = AppUsageConfig::default();
    let tracker = AppTracker::new(config).expect("Failed to create AppTracker");

    assert!(tracker.is_productive("Visual Studio Code"));
    assert!(!tracker.is_productive("YouTube"));
}

#[test]
fn test_usage_stats() {
    let config = AppUsageConfig::default();
    let mut tracker = AppTracker::new(config).expect("Failed to create AppTracker");
    let t0 = current_time_millis();

    tracker.switch_to_new_app_at(window("Visual Studio Code", "main.rs"), t0).unwrap();
    tracker.update_at(window("Visual Studio Code", "main.rs"), t0 + 1000).unwrap();

    let stats = tracker.get_usage_stats(t0 - 3_600_000).unwrap();
    assert!(stats.productive_time > 0);
    assert_eq!(stats.most_used_app, Some("Visual Studio Code".to_string()));
}

#[test]
fn categories_follow_the_first_rule_ignoring_case() {
    let tracker = AppTracker::new(AppUsageConfig::default()).unwrap();
    assert_eq!(tracker.get_app_category("SLACK"), AppCategory::Communication);
    assert_eq!(tracker.get_app_category("Google Chrome"), AppCategory::Productivity);
    assert_eq!(tracker.get_app_category("Code - Teams"), AppCategory::Development);
}

#[test]
fn unproductive_names_win_over_productive_ones() {
    let tracker = AppTracker::new(AppUsageConfig::default()).unwrap();
    assert!(!tracker.is_productive("code game"));
    assert!(tracker.is_productive("WORD"));
    assert!(!tracker.is_productive("notepad"));
}

#[test]
fn stats_total_the_stored_stretches() {
    let mut tracker = AppTracker::new(AppUsageConfig::default()).unwrap();
    let t0 = current_time_millis();
    tracker.update_at(window("Code", "a"), t0).unwrap();
    tracker.update_at(window("YouTube", "b"), t0 + 4000).unwrap();
    tracker.update_at(window("Code", "c"), t0 + 5000).unwrap();
    tracker.update_at(window("Slack", "d"), t0 + 8000).unwrap();
    let stats = tracker.get_usage_stats(t0).unwrap();
    assert_eq!(stats.total_time, 8000);
    assert_eq!(stats.productive_time, 7000);
    assert_eq!(stats.unproductive_time, 1000);
    assert_eq!(stats.app_usage, vec![("Code".to_string(), 7000), ("YouTube".to_string(), 1000)]);
    assert_eq!(stats.most_used_app, Some("Code".to_string()));
    assert_eq!(stats.get_most_used_category(), Some((AppCategory::Development, 7000)));
}

#[test]
fn stats_skip_stretches_before_the_start() {
    let mut tracker = AppTracker::new(AppUsageConfig::default()).unwrap();
    let t0 = current_time_millis();
    tracker.update_at(window("Code", "a"), t0).unwrap();
    tracker.update_at(window("Word", "b"), t0 + 1000).unwrap();
    tracker.update_at(window("Excel", "c"), t0 + 3000).unwrap();
    let stats = tracker.get_usage_stats(t0 + 1).unwrap();
    assert_eq!(stats.total_time, 2000);
    assert_eq!(stats.most_used_app, Some("Word".to_string()));
}

#[test]
fn idle_period_stores_the_current_stretch() {
    let mut tracker = AppTracker::new(AppUsageConfig::default()).unwrap();
    let t0 = current_time_millis();
    tracker.update_at(window("Code", "a"), t0).unwrap();
    tracker.update_current_app_duration(t0 + 2500).unwrap();
    tracker.handle_idle_period().unwrap();
    let data = tracker.export_data().unwrap();
    assert_eq!(data.len(), 1);
    assert_eq!(data[0].duration, 2500);
    assert_eq!(data[0].category, AppCategory::Development);
}

#[test]
fn empty_stats_have_no_favourite() {
    let stats = AppUsageStats::new();
    assert_eq!(stats.total_time, 0);
    assert_eq!(stats.most_used_app, None);
    assert_eq!(stats.get_most_used_category(), None);
}

#[test]
fn record_window_changes_nothing() {
    let mut tracker = AppTracker::new(AppUsageConfig::default()).unwrap();
    tracker.record_window(window("Code", "a")).unwrap();
    assert_eq!(tracker.export_data().unwrap().len(), 0);
}

#[test]
fn invalid_records_are_refused() {
    let mut tracker = AppTracker::new(AppUsageConfig::default()).unwrap();
    let short = AppUsageData {
        app_name: "Code".to_string(),
        window_title: "x".to_string(),
        start_time: 0,
        duration: 999,
        is_productive: true,
        category: AppCategory::Development,
    };
    match tracker.validate_app_data(&short) {
        Err(TimeTrackerError::Platform(m)) => assert_eq!(m, "Invalid duration"),
        other => panic!("unexpected {:?}", other),
    }
    let unnamed = AppUsageData { app_name: String::new(), duration: 1000, ..short.duplicate() };
    match tracker.validate_app_data(&unnamed) {
        Err(TimeTrackerError::Platform(m)) => assert_eq!(m, "Empty app name"),
        other => panic!("unexpected {:?}", other),
    }
    let good = AppUsageData { duration: 1000, ..short };
    assert!(tracker.validate_app_data(&good).is_ok());
    tracker.save_app_record(good).unwrap();
    assert_eq!(tracker.export_data().unwrap().len(), 1);
}

#[test]
fn switching_by_the_clock_stores_the_previous_application() {
    let mut tracker = AppTracker::new(AppUsageConfig::default()).unwrap();
    tracker.switch_to_new_app(window("Visual Studio Code", "main.rs")).unwrap();
    assert_eq!(tracker.export_data().unwrap().len(), 0);
    tracker.switch_to_new_app(window("Firefox", "docs")).unwrap();
    let stored = tracker.export_data().unwrap();
    assert_eq!(stored.len(), 1);
    assert_eq!(stored[0].app_name, "Visual Studio Code");
    assert_eq!(stored[0].category, AppCategory::Development);
}

#[test]
fn names_are_matched_ignoring_case() {
    let tracker = AppTracker::new(AppUsageConfig::default()).unwrap();
    assert_eq!(tracker.get_app_category("VISUAL STUDIO CODE"), AppCategory::Development);
    assert_eq!(tracker.get_app_category("visual studio code"), AppCategory::Development);
    assert_eq!(tracker.is_productive("VISUAL STUDIO CODE"), tracker.is_productive("Visual Studio Code"));
    assert_eq!(tracker.is_productive("YOUTUBE"), tracker.is_productive("YouTube"));
}

#[test]
fn a_tracker_made_at_a_moment_starts_its_clock_there() {
    let mut tracker = AppTracker::new_at(AppUsageConfig::default(), 1_000);
    tracker.switch_to_new_app_at(window("Visual Studio Code", "main.rs"), 1_000).unwrap();
    tracker.switch_to_new_app_at(window("Firefox", "docs"), 6_000).unwrap();
    let stored = tracker.export_data().unwrap();
    assert_eq!(stored.len(), 1);
    assert_eq!(stored[0].duration, 5_000);
}
