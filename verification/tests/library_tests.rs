use time_tracker::export_plugin::ExportPlugin;
use time_tracker::config::{config_file_in, config_path_from, data_dir_in, StorageConfig};
use time_tracker::paths::{app_folder_name, xdg_layout};
use time_tracker::analysis::{daily_summary, days_in_month, month_week_starts, monthly_summary, week_day_starts, weekly_summary, DAY_MS};
use time_tracker::backup::{backups_to_remove, is_zip_name, run_due, select_backups};
use time_tracker::error::AppError;
use time_tracker::export::{export_activities_to_csv, export_pomodoros_to_csv, format_duration, status_string};
use time_tracker::export_plugin::{export_plan, markdown_report, ExportContent, ExportFormat as PluginFormat};
use time_tracker::models::{calculate_project_summaries, session_counts, Activity, PomodoroSession, PomodoroStatus, Project};
use time_tracker::rules::{suggest_rules, Rule, RuleEngine};
use time_tracker::stats::{analyze_productivity, should_analyze, work_alerts, WorkHours};
use time_tracker::text::{contains_str, decimal_string};

fn activity(app: &str, title: &str, duration: u64, productive: bool, category: Option<&str>, project: Option<i64>) -> Activity {
    Activity {
        id: Some(1),
        name: app.to_string(),
        start_time: 0,
        end_time: None,
        project_id: project,
        description: None,
        duration,
        category: category.map(|c| c.to_string()),
        is_productive: productive,
        app_name: app.to_string(),
        window_title: title.to_string(),
    }
}

fn session(status: PomodoroStatus, duration: u64, project: Option<i64>) -> PomodoroSession {
    PomodoroSession { id: None, start_time: 0, end_time: None, duration, status, project_id: project, notes: None }
}

#[test]
fn test_rule_engine() {
    let mut engine = RuleEngine::new();
    engine.load_rules(vec![Rule {
        id: Some(1),
        name: "Test Rule".to_string(),
        app_pattern: Some("test_app".to_string()),
        title_pattern: None,
        category: Some("work".to_string()),
        is_productive: true,
        priority: 1,
    }]);

    let mut a = activity("test_app", "test_window", 3600 * 1000, false, None, None);
    engine.apply_rules(&mut a);
    assert_eq!(a.category, Some("work".to_string()));
    assert!(a.is_productive);
}

#[test]
fn the_rule_of_highest_priority_wins() {
    let mut engine = RuleEngine::new();
    let rule = |name: &str, app: Option<&str>, title: Option<&str>, cat: &str, prio: i32| Rule {
        id: None,
        name: name.to_string(),
        app_pattern: app.map(|s| s.to_string()),
        title_pattern: title.map(|s| s.to_string()),
        category: Some(cat.to_string()),
        is_productive: prio > 1,
        priority: prio,
    };
    engine.load_rules(vec![
        rule("low", Some("^code"), None, "editor", 1),
        rule("high", None, Some("\\.rs$"), "rust", 5),
        rule("bad", Some("("), None, "never", 9),
    ]);
    let m = engine.classify_activity(&activity("code", "main.rs", 1, false, None, None)).unwrap();
    assert_eq!(m.rule.name, "high");
    assert_eq!(m.matched_patterns, vec!["title: main.rs".to_string()]);
    let m = engine.classify_activity(&activity("code", "notes.txt", 1, false, None, None)).unwrap();
    assert_eq!(m.rule.name, "low");
    assert_eq!(m.matched_patterns, vec!["app: code".to_string()]);
    assert!(engine.classify_activity(&activity("vim", "x", 1, false, None, None)).is_none());
    let unmatched = activity("vim", "x", 1, false, None, None);
    let mut same = activity("vim", "x", 1, false, None, None);
    engine.apply_rules(&mut same);
    assert_eq!(same.category, unmatched.category);
    let matches = engine.analyze_rules(&vec![
        activity("code", "a", 1, false, None, None),
        activity("vim", "b", 1, false, None, None),
    ]);
    assert_eq!(matches.len(), 1);
    assert_eq!(matches[0].activity.app_name, "code");
}

#[test]
fn frequent_applications_get_suggested_rules() {
    let mut acts = Vec::new();
    for i in 0..10 {
        acts.push(activity("editor.app", "x", 1, i == 0, None, None));
    }
    for _ in 0..9 {
        acts.push(activity("rare", "x", 1, true, None, None));
    }
    let rules = suggest_rules(&acts);
    assert_eq!(rules.len(), 1);
    assert_eq!(rules[0].app_pattern, Some("editor\\.app".to_string()));
    assert!(rules[0].is_productive);
}

#[test]
fn durations_are_written_as_clock_times() {
    assert_eq!(format_duration(0), "00:00:00");
    assert_eq!(format_duration(3_723_000), "01:02:03");
    assert_eq!(format_duration(100 * 3600 * 1000 + 59_999), "100:00:59");
    assert_eq!(status_string(PomodoroStatus::ShortBreak), "ShortBreak");
}

#[test]
fn activity_csv_has_a_header_and_one_row_each() {
    let projects = vec![Project { id: Some(3), name: "Site".to_string(), description: None, created_at: 0, updated_at: 0 }];
    let acts = vec![activity("code", "main.rs", 3_723_000, true, Some("dev"), Some(3))];
    let bytes = export_activities_to_csv(&acts, &projects).unwrap();
    let text = String::from_utf8(bytes).unwrap();
    let lines: Vec<&str> = text.lines().collect();
    assert_eq!(lines.len(), 2);
    assert_eq!(lines[0], "ID,Name,Start Time,End Time,Duration,Project,Category,Is Productive,App Name,Window Title,Description");
    assert!(lines[1].starts_with("1,code,"));
    assert!(lines[1].ends_with(",,01:02:03,Site,dev,Yes,code,main.rs,"));
    let sessions = vec![session(PomodoroStatus::Completed, 1_500_000, Some(3))];
    let text = String::from_utf8(export_pomodoros_to_csv(&sessions, &projects).unwrap()).unwrap();
    assert_eq!(text.lines().count(), 2);
    assert!(text.lines().nth(1).unwrap().contains("00:25:00"));
}

#[test]
fn summaries_add_up() {
    let projects = vec![Project { id: Some(1), name: "A".to_string(), description: None, created_at: 0, updated_at: 0 }];
    let acts = vec![
        activity("code", "x", 1000, true, None, Some(1)),
        activity("chat", "y", 500, false, None, None),
    ];
    let sessions = vec![session(PomodoroStatus::Completed, 2000, Some(1)), session(PomodoroStatus::Interrupted, 400, None)];
    let counts = session_counts(&sessions);
    assert_eq!(counts.total_sessions, 2);
    assert_eq!(counts.completed_sessions, 1);
    assert_eq!(counts.total_time, 2400);
    assert_eq!(counts.average_duration, 1200);
    let summaries = calculate_project_summaries(&projects, &acts, &sessions);
    assert_eq!(summaries.len(), 1);
    assert_eq!(summaries[0].total_time, 1000);
    assert_eq!(summaries[0].activities_count, 1);
    assert_eq!(summaries[0].pomodoros_count, 1);
    let day = daily_summary(5 * DAY_MS, acts, sessions, &projects);
    assert_eq!(day.total_time, 1500);
    assert_eq!(day.productive_time, 1000);
    assert_eq!(week_day_starts(0), (0..7).map(|k| k * DAY_MS).collect::<Vec<i64>>());
    let week = weekly_summary(0, vec![day], &projects);
    assert_eq!(week.end_date, 7 * DAY_MS);
    assert_eq!(week.total_time, 1500);
    assert_eq!(week.projects.len(), 1);
    assert_eq!(week.projects[0].total_time, 1000);
    assert_eq!(week.projects[0].pomodoros_count, 1);
    let month = monthly_summary(0, vec![week], &projects);
    assert_eq!(month.productive_time, 1000);
    assert_eq!(month.projects[0].activities_count, 1);
}

#[test]
fn months_have_their_lengths() {
    assert_eq!(days_in_month(2024, 2), 29);
    assert_eq!(days_in_month(2023, 2), 28);
    assert_eq!(days_in_month(1900, 2), 28);
    assert_eq!(days_in_month(2000, 2), 29);
    assert_eq!(days_in_month(-4, 2), 29);
    assert_eq!(days_in_month(2023, 4), 30);
    assert_eq!(days_in_month(2023, 12), 31);
    assert_eq!(month_week_starts(0, 31), vec![0, 7 * DAY_MS, 14 * DAY_MS, 21 * DAY_MS, 28 * DAY_MS]);
    assert_eq!(month_week_starts(0, 28).len(), 4);
}

#[test]
fn backups_are_zip_files_newest_kept() {
    let names = vec![
        "backup_20240103_000000.zip".to_string(),
        "notes.txt".to_string(),
        "backup_20240101_000000.zip".to_string(),
        ".zip".to_string(),
        "backup_20240102_000000.zip".to_string(),
    ];
    let sorted = select_backups(&names);
    assert_eq!(sorted, vec![
        "backup_20240101_000000.zip".to_string(),
        "backup_20240102_000000.zip".to_string(),
        "backup_20240103_000000.zip".to_string(),
    ]);
    assert_eq!(backups_to_remove(&sorted, 2), vec!["backup_20240101_000000.zip".to_string()]);
    assert!(backups_to_remove(&sorted, 3).is_empty());
    assert!(is_zip_name(&"a.zip".to_string()));
    assert!(!is_zip_name(&"a.zip.bak".to_string()));
}

#[test]
fn periodic_runs_fall_due_after_the_interval() {
    assert!(!run_due(false, None, 100, 10).unwrap());
    assert!(run_due(true, None, 100, 10).unwrap());
    assert!(!run_due(true, Some(95), 100, 10).unwrap());
    assert!(run_due(true, Some(90), 100, 10).unwrap());
    assert!(matches!(run_due(true, Some(101), 100, 10), Err(AppError::InvalidOperation(_))));
    assert!(should_analyze(true, None, 0, 1));
    assert!(!should_analyze(false, None, 0, 1));
    assert!(!should_analyze(true, Some(0), 10, 11));
    assert!(should_analyze(true, Some(0), 11, 11));
}

#[test]
fn productivity_is_totalled_and_alerted() {
    let acts = vec![
        activity("code", "x", 1000, true, Some("dev"), None),
        activity("chat", "y", 500, false, None, None),
        activity("code", "z", 300, true, Some("dev"), None),
    ];
    let sessions = vec![session(PomodoroStatus::Completed, 1, None)];
    let s = analyze_productivity(&acts, &sessions, 2 * DAY_MS);
    assert_eq!(s.period_start, DAY_MS);
    assert_eq!(s.total_time, 1800);
    assert_eq!(s.productive_time, 1300);
    assert_eq!(s.activity_breakdown, vec![("dev".to_string(), 1300), ("未分类".to_string(), 500)]);
    assert_eq!(s.completed_pomodoros, 1);
    let alerts = work_alerts(&s);
    assert_eq!(alerts, vec![
        "工作时间不足,建议增加有效工作时间".to_string(),
        "番茄钟完成数量较少,建议使用番茄工作法提高专注度".to_string(),
    ]);
    let hours = WorkHours::office_hours();
    assert!(hours.contains(1, 9));
    assert!(!hours.contains(1, 18));
    assert!(!hours.contains(6, 10));
}

#[test]
fn export_plan_names_the_files() {
    let plan = export_plan(&vec![PluginFormat::JSON, PluginFormat::Markdown], "20240101_120000");
    assert_eq!(plan, vec![
        (ExportContent::ActivitiesJson, "activities_20240101_120000.json".to_string()),
        (ExportContent::PomodorosJson, "pomodoros_20240101_120000.json".to_string()),
        (ExportContent::MarkdownReport, "timetracker_20240101_120000.md".to_string()),
    ]);
    let report = markdown_report(&vec![activity("code", "main.rs", 1500, true, None, None)], &Vec::new());
    assert!(report.starts_with("# Activity Report\n\n## Activities\n"));
    assert!(report.contains(" | code | main.rs | 1.5s | N/A | true |\n"));
    assert!(report.ends_with("|------|-----------|--------|--------|\n"));
}

#[test]
fn text_helpers() {
    assert!(contains_str("visual studio code", "studio"));
    assert!(!contains_str("code", "studio"));
    assert_eq!(decimal_string(1200), "1200");
}

#[test]
fn hourly_samples_follow_the_activities() {
    let acts = vec![
        activity("a", "x", 1, true, None, None),
        activity("b", "y", 1, false, None, None),
    ];
    let samples = time_tracker::stats::hourly_samples(&acts);
    assert_eq!(samples.len(), 2);
    assert!(samples[0].0 < 24 && samples[0].1);
    assert!(!samples[1].1);
}

#[test]
fn test_stats_analysis() {
    let now = 10 * DAY_MS;
    let mut coding = activity("code_editor", "project.rs", 3600 * 1000, true, Some("coding"), None);
    coding.start_time = now;
    let mut browsing = activity("browser", "social_media", 1800 * 1000, false, Some("entertainment"), None);
    browsing.start_time = now + 3600 * 1000;
    let activities = vec![coding, browsing];
    let pomodoros = vec![PomodoroSession {
        id: Some(1),
        start_time: now,
        end_time: None,
        duration: 1500 * 1000,
        status: PomodoroStatus::Completed,
        project_id: None,
        notes: None,
    }];

    let stats = analyze_productivity(&activities, &pomodoros, now);

    assert_eq!(stats.total_time, 5400 * 1000);
    assert_eq!(stats.productive_time, 3600 * 1000);
    let productivity_score = stats.productive_time as f64 / stats.total_time as f64;
    assert!(productivity_score > 0.0);
    assert_eq!(stats.completed_pomodoros, 1);
    assert_eq!(stats.activity_breakdown.len(), 2);
}

#[test]
fn stamps_and_paths_have_their_shape() {
    let stamp = time_tracker::export_plugin::export_stamp(0);
    assert!(stamp.chars().all(|c| c.is_ascii_digit() || c == '_' || c == '-' || c == '+'));
    assert_eq!(stamp.len(), 15);
    let log = time_tracker::logging::get_default_log_path();
    assert!(log.contains("time_tracker"));
    assert!(log.ends_with(".log"));
    if let Ok(p) = time_tracker::config::Config::get_config_path() {
        assert!(p.ends_with("config.json"));
    }
    let m = time_tracker::settings_file::FileConfigManager::new();
    assert!(m.config_dir().ends_with("timetracker") || m.config_dir().ends_with("TimeTracker"));
    assert!(m.config_path().starts_with(m.config_dir().as_str()));
    assert!(m.config_path().ends_with("config.json"));
}

#[test]
fn config_and_data_folders_follow_the_platform_layout() {
    assert_eq!(app_folder_name(true), "timetracker");
    assert_eq!(app_folder_name(false), "TimeTracker");
    let linux = Some("/home/u/.config".to_string());
    assert!(xdg_layout(&linux, &linux.clone()));
    assert!(!xdg_layout(&Some("/Users/u/Library/Application Support".to_string()), &Some("/Users/u/Library/Preferences".to_string())));
    assert!(!xdg_layout(&None, &None));
    assert_eq!(config_file_in("/home/u/.config", true), "/home/u/.config/timetracker/config.json");
    assert_eq!(config_file_in("/Users/u/Library/Application Support", false), "/Users/u/Library/Application Support/TimeTracker/config.json");
    assert_eq!(data_dir_in("/home/u/.local/share", true), "/home/u/.local/share/timetracker/data");
    assert_eq!(data_dir_in("/Users/u/Library/Application Support", false), "/Users/u/Library/Application Support/TimeTracker/data");
    assert_eq!(config_path_from(Some("/home/u/.config".to_string()), true).unwrap(), "/home/u/.config/timetracker/config.json");
    match config_path_from(None, true) {
        Err(time_tracker::error::TimeTrackerError::Config(m)) => assert_eq!(m, "Could not determine config directory"),
        _ => panic!("expected a configuration error"),
    }
    let storage = StorageConfig::default();
    assert!(storage.data_dir.ends_with("data"));
    assert!(storage.data_dir.contains("timetracker") || storage.data_dir.contains("TimeTracker"));
}

#[test]
fn empty_exports_are_the_header_alone() {
    let bytes = export_activities_to_csv(&Vec::new(), &Vec::new()).unwrap();
    assert_eq!(bytes, b"ID,Name,Start Time,End Time,Duration,Project,Category,Is Productive,App Name,Window Title,Description\n".to_vec());
    let bytes = export_pomodoros_to_csv(&Vec::new(), &Vec::new()).unwrap();
    assert_eq!(bytes, b"ID,Start Time,End Time,Duration,Status,Project,Notes\n".to_vec());
}

#[test]
fn total_time_is_checked_for_overflow() {
    let a = activity("code", "main.rs", 3_723_000, true, None, None);
    let b = activity("mail", "inbox", 1_000, false, None, None);
    assert_eq!(time_tracker::models::checked_total_time(&vec![a, b]), Some(3_724_000));
    let b = activity("mail", "inbox", 1_000, false, None, None);
    assert_eq!(time_tracker::models::checked_total_time(&Vec::new()), Some(0));
    let big = activity("code", "main.rs", u64::MAX, true, None, None);
    assert_eq!(time_tracker::models::checked_total_time(&vec![big, b]), None);
}

fn is_stamp_shape(s: &str) -> bool {
    s.len() == 15
        && s.char_indices().all(|(i, c)| if i == 8 { c == '_' } else { c.is_ascii_digit() })
}

#[test]
fn time_texts_carry_the_local_fields() {
    // 2024-06-15T12:00:00Z: every zone's local date is the 14th, 15th or 16th of June 2024.
    let noon = 1_718_452_800_000;
    let stamp = time_tracker::export_plugin::export_stamp(noon);
    assert!(is_stamp_shape(&stamp));
    assert!(stamp.starts_with("202406"));
    let name = time_tracker::backup::backup_file_name(noon);
    assert!(name.starts_with("backup_2024061"));
    assert!(name.ends_with(".zip"));
    assert!(is_stamp_shape(&name["backup_".len()..name.len() - 4]));
    let mut a = activity("code", "main.rs", 1500, true, None, None);
    a.start_time = noon;
    let report = markdown_report(&vec![a], &Vec::new());
    assert!(report.contains("| 2024-06-1"));
    assert_eq!(time_tracker::analysis::month_days_at(noon).unwrap(), 30);
    // 2024-02-15T12:00:00Z lies in February everywhere: 29 days in 2024.
    assert_eq!(time_tracker::analysis::month_days_at(1_708_000_000_000).unwrap(), 29);
}

#[test]
fn completed_sessions_are_counted_without_adding_durations() {
    let sessions = vec![
        session(PomodoroStatus::Completed, u64::MAX, None),
        session(PomodoroStatus::Interrupted, u64::MAX, None),
        session(PomodoroStatus::Completed, 5, None),
    ];
    assert_eq!(time_tracker::models::completed_sessions(&sessions), 2);
    let s = analyze_productivity(&Vec::new(), &sessions, 2 * DAY_MS);
    assert_eq!(s.completed_pomodoros, 2);
}

#[test]
fn suggested_rules_match_the_name_literally() {
    let mut acts = Vec::new();
    for _ in 0..10 {
        acts.push(activity("C++ (IDE)", "x", 1, true, None, None));
    }
    let rules = suggest_rules(&acts);
    assert_eq!(rules.len(), 1);
    let p = rules[0].app_pattern.clone().unwrap();
    assert_eq!(p, "C\\+\\+ \\(IDE\\)");
    let re = regex::Regex::new(&p).unwrap();
    assert!(re.is_match("my C++ (IDE) window"));
    assert!(!re.is_match("C (IDE)"));
}

#[test]
fn export_plugin_records_its_last_export() {
    let mut plugin = ExportPlugin::new();
    assert_eq!(plugin.last_export(), None);
    assert_eq!(plugin.auto_export_due(1_000).unwrap(), true);
    let files = plugin.export_files(1_718_452_800_000);
    assert_eq!(files.len(), 4);
    assert!(files[0].1.starts_with("activities_2024061"));
    assert!(files[0].1.ends_with(".json"));
    plugin.record_export(1_000);
    assert_eq!(plugin.last_export(), Some(1_000));
    assert_eq!(plugin.auto_export_due(2_000).unwrap(), false);
    assert_eq!(plugin.auto_export_due(1_000 + 24 * 60 * 60 * 1000).unwrap(), true);
    assert!(matches!(plugin.auto_export_due(500), Err(AppError::InvalidOperation(_))));
}

#[test]
fn clock_readings_before_the_epoch_are_negative() {
    let f = time_tracker::clock::millis_from_reading;
    assert_eq!(f(Ok(5)), 5);
    assert_eq!(f(Err(5)), -5);
    assert_eq!(f(Ok(u128::MAX)), 253_402_214_400_000);
    assert_eq!(f(Err(u128::MAX)), -253_402_214_400_000);
}

#[test]
fn every_datable_activity_gives_an_hourly_sample() {
    let mut a = activity("code", "main.rs", 1500, true, None, None);
    a.start_time = 1_718_452_800_000;
    let mut b = activity("mail", "inbox", 500, false, None, None);
    b.start_time = 1_718_456_400_000;
    let samples = time_tracker::stats::hourly_samples(&vec![a, b]);
    assert_eq!(samples.len(), 2);
    assert!(samples[0].0 < 24 && samples[0].1);
    assert_eq!((samples[0].0 + 1) % 24, samples[1].0);
    assert!(!samples[1].1);
    assert_eq!(time_tracker::analysis::whole_days(0, 30 * DAY_MS - 3_600_000), 29);
    assert_eq!(time_tracker::analysis::whole_days(30 * DAY_MS, 0), -30);
}
