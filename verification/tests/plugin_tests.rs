use std::cell::Cell;
use time_tracker::cli::{day_bound, default_start_from, join_tags, remaining_line, stats_format, CliRunner, StatsQuery, THIRTY_DAYS_MS};
use time_tracker::error::{AppError, TimeTrackerError};
use time_tracker::hotkeys::{HotkeyConfig, HotkeyManager, Modifier};
use time_tracker::models::{Activity, ExportFormat, PomodoroStatus};
use time_tracker::notification::{
    break_end_notification, break_start_notification, productivity_alert_notification, system_alert_notification,
    NotificationType,
};
use time_tracker::plugin_manager::{PluginConfig, PluginManager, PluginMetadata};
use time_tracker::plugins::{load_failure, BackupPlugin, CsvExportPlugin, PluginEvent, SystemNotificationPlugin};
use time_tracker::pomodoro::{NoCallbacks, PomodoroCallbacks, PomodoroConfig, PomodoroState, PomodoroTimer};
use time_tracker::sessions::{ActivityManager, PomodoroManager};
use time_tracker::settings::{PomodoroSettings, StorageSettings, UISettings};
use time_tracker::settings_file::{dir_or, Config as ShellConfig};

fn metadata(id: &str, deps: Vec<&str>) -> PluginMetadata {
    PluginMetadata {
        id: id.to_string(),
        name: "Test Plugin".to_string(),
        version: "1.0.0".to_string(),
        author: "Test Author".to_string(),
        description: "Test Description".to_string(),
        dependencies: deps.into_iter().map(|d| d.to_string()).collect(),
        config_schema: None,
    }
}

#[test]
fn test_plugin_lifecycle() {
    let mut manager = PluginManager::new();
    let meta = metadata("test_plugin", vec![]);

    let config = manager.prepare_registration(&meta, None).unwrap();
    assert!(config.enabled);
    assert_eq!(config.plugin_id, "test_plugin");
    manager.insert(meta, config);
    assert!(manager.is_registered("test_plugin"));
    assert_eq!(manager.enabled_ids(), vec!["test_plugin".to_string()]);

    let off = manager.set_enabled("test_plugin", false).unwrap();
    assert!(!off.enabled);
    assert!(manager.enabled_ids().is_empty());

    let on = manager.set_enabled("test_plugin", true).unwrap();
    assert!(on.enabled);
    assert!(manager.get_plugin_config("test_plugin").unwrap().enabled);
}

#[test]
fn registration_needs_dependencies() {
    let mut manager = PluginManager::new();
    match manager.prepare_registration(&metadata("b", vec!["a", "c"]), None) {
        Err(AppError::Validation(m)) => assert_eq!(m, "Missing dependency: a"),
        other => panic!("unexpected {:?}", other),
    }
    let a = metadata("a", vec![]);
    let cfg = manager.prepare_registration(&a, None).unwrap();
    manager.insert(a, cfg);
    match manager.prepare_registration(&metadata("b", vec!["a", "c"]), None) {
        Err(AppError::Validation(m)) => assert_eq!(m, "Missing dependency: c"),
        other => panic!("unexpected {:?}", other),
    }
    let stored = PluginConfig { plugin_id: "b".to_string(), enabled: false, config: Some("{}".to_string()) };
    let cfg = manager.prepare_registration(&metadata("b", vec!["a"]), Some(stored)).unwrap();
    assert!(!cfg.enabled);
    assert_eq!(cfg.config, Some("{}".to_string()));
}

#[test]
fn settings_and_unregistering() {
    let mut manager = PluginManager::new();
    let m = metadata("p", vec![]);
    let cfg = manager.prepare_registration(&m, None).unwrap();
    manager.insert(m, cfg);
    let c = manager.set_settings("p", "{\"x\":1}".to_string()).unwrap();
    assert_eq!(c.config, Some("{\"x\":1}".to_string()));
    assert!(c.enabled);
    assert_eq!(manager.get_plugin_metadata("p").unwrap().author, "Test Author");
    assert!(manager.set_enabled("missing", true).is_none());
    assert!(manager.unregister("p"));
    assert!(!manager.unregister("p"));
    assert!(manager.get_plugin_config("p").is_none());
}

#[test]
fn built_in_plugins_describe_themselves() {
    let csv = CsvExportPlugin::new();
    assert_eq!(csv.name(), "csv_export");
    assert_eq!(csv.version(), "1.0.0");
    let bytes = csv.export_data(0, 0).unwrap();
    assert_eq!(String::from_utf8(bytes).unwrap(), "日期,活动名称,类别,开始时间,结束时间,持续时间(分钟),是否生产性\n");
    let report = csv.generate_report(0, 0).unwrap();
    assert!(report.starts_with("时间范围: "));
    assert!(report.ends_with("\n"));
    let notify = SystemNotificationPlugin::new();
    assert_eq!(notify.name(), "system_notification");
    assert_eq!(notify.timeout_ms(), 5000);
    let backup = BackupPlugin::new("backups".to_string());
    assert_eq!(backup.name(), "备份插件");
    let files = vec!["a.db".to_string(), "b.txt".to_string(), "c.db".to_string(), ".db".to_string()];
    assert_eq!(backup.list_backups(&files), vec!["a.db".to_string(), "c.db".to_string()]);
    let name = backup.backup_name(0);
    assert!(name.starts_with("backup_") && name.ends_with(".db"));
    match load_failure("x", "boom") {
        PluginEvent::Error(m) => assert_eq!(m, "加载插件 x 失败: boom"),
        other => panic!("unexpected {:?}", other),
    }
}

#[test]
fn notifications_say_what_happened() {
    let n = break_start_notification(7, 5);
    assert_eq!(n.notification_type, NotificationType::PomodoroBreakStart);
    assert_eq!(n.title, "休息时间开始");
    assert_eq!(n.message, "开始5分钟的休息时间");
    assert_eq!(n.timestamp, 7);
    assert!(!n.is_read && n.id.is_none());
    let n = break_end_notification(8);
    assert_eq!(n.message, "休息时间已结束,准备开始新的番茄钟");
    let n = productivity_alert_notification(9, 7200, 5400);
    assert_eq!(n.message, "今日已工作 2 小时,休息 1 小时");
    assert_eq!(n.metadata, Some("{\"productive_time\":7200,\"unproductive_time\":5400}".to_string()));
    let n = system_alert_notification(1, "Test", "Test message");
    assert_eq!(n.title, "Test");
    assert_eq!(n.message, "Test message");
}

#[test]
fn test_cli_stats() {
    let pomodoro = PomodoroTimer::new(PomodoroConfig::default(), NoCallbacks);
    let runner = CliRunner::new((), pomodoro);

    let today = chrono::Local::now().format("%Y-%m-%d").to_string();
    runner.show_stats(&Some(today), &None, &None, "text").unwrap();
}

#[test]
fn stats_formats_and_dates() {
    assert_eq!(stats_format("TEXT").unwrap(), None);
    assert_eq!(stats_format("json").unwrap(), Some(ExportFormat::JSON));
    assert_eq!(stats_format("Csv").unwrap(), Some(ExportFormat::CSV));
    assert_eq!(stats_format("excel").unwrap(), Some(ExportFormat::Excel));
    match stats_format("xml") {
        Err(TimeTrackerError::Platform(m)) => assert_eq!(m, "Unsupported export format: xml"),
        other => panic!("unexpected {:?}", other),
    }
    assert!(day_bound("2024-02-29", 12, 0, 0).is_ok());
    assert!(matches!(day_bound("2023-02-29", 12, 0, 0), Err(TimeTrackerError::Parse(_))));
    let noon = day_bound("2024-03-01", 12, 0, 0).unwrap();
    let later = day_bound("2024-03-01", 13, 0, 0).unwrap();
    assert_eq!(later - noon, 3_600_000);
    assert!(matches!(day_bound("yesterday", 0, 0, 0), Err(TimeTrackerError::Parse(_))));
    let runner = CliRunner::new((), PomodoroTimer::new(PomodoroConfig::default(), NoCallbacks));
    assert!(matches!(runner.show_stats(&Some("bad".to_string()), &None, &None, "text"), Err(TimeTrackerError::Parse(_))));
    assert!(matches!(runner.show_stats(&None, &None, &None, "pdf"), Err(TimeTrackerError::Platform(_))));
    let q: StatsQuery = runner.show_stats(&None, &None, &Some("Site".to_string()), "json").unwrap();
    assert_eq!(q.project, Some("Site".to_string()));
    assert_eq!(q.format, Some(ExportFormat::JSON));
    assert!(q.start <= q.end);
}

#[test]
fn cli_drives_the_timer() {
    let mut runner = CliRunner::new(0u8, PomodoroTimer::new(PomodoroConfig::default(), NoCallbacks));
    runner.start_pomodoro(1, Some(4), vec!["a".to_string(), "b".to_string()]).unwrap();
    assert_eq!(runner.pomodoro().get_state(), PomodoroState::Working);
    assert_eq!(runner.pomodoro().get_remaining_time(), 60_000);
    assert_eq!(runner.pomodoro().get_project(), Some(4));
    let lines = runner.status_lines(Some("Site".to_string()));
    assert_eq!(lines, vec![
        "状态: 工作中".to_string(),
        "剩余时间: 01:00".to_string(),
        "当前项目: Site".to_string(),
        "标签: a, b".to_string(),
    ]);
    assert!(runner.start_pomodoro(2, None, Vec::new()).is_err());
    assert_eq!(runner.pomodoro().get_config().work_duration, 120_000);
    assert!(runner.pomodoro().get_tags().is_empty());
    runner.pause_pomodoro().unwrap();
    assert_eq!(runner.status_lines(None), vec!["状态: 已暂停".to_string()]);
    assert!(runner.pause_pomodoro().is_err());
    runner.stop_pomodoro().unwrap();
    assert_eq!(runner.status_lines(None), vec!["状态: 空闲".to_string()]);
    assert_eq!(*runner.storage(), 0u8);
}

#[test]
fn clock_lines_pad_to_two_digits() {
    assert_eq!(remaining_line(0), "剩余时间: 00:00");
    assert_eq!(remaining_line(65_999), "剩余时间: 01:05");
    assert_eq!(remaining_line(6_000_000), "剩余时间: 100:00");
    assert_eq!(join_tags(&vec![]), "");
    assert_eq!(join_tags(&vec!["x".to_string()]), "x");
}

#[test]
fn sessions_move_through_their_states() {
    let mut m = PomodoroManager::new();
    assert!(!m.is_active());
    m.start_session(1500, 10);
    assert!(m.is_active());
    m.pause_session();
    assert!(!m.is_active());
    assert_eq!(m.get_current_session().unwrap().status, PomodoroStatus::ShortBreak);
    m.resume_session();
    assert!(m.is_active());
    let done = m.stop_session(20).unwrap();
    assert_eq!(done.status, PomodoroStatus::Completed);
    assert_eq!(done.end_time, Some(20));
    assert_eq!(done.duration, 1500);
    assert!(!m.is_active());
    assert!(m.stop_session(30).is_none());

    let mut a = ActivityManager::new();
    assert_eq!(a.get_elapsed_time(100), 0);
    a.start_activity(Activity {
        id: None,
        name: "x".to_string(),
        start_time: 40,
        end_time: None,
        project_id: None,
        description: None,
        duration: 0,
        category: None,
        is_productive: true,
        app_name: "x".to_string(),
        window_title: "x".to_string(),
    });
    assert!(a.is_tracking());
    assert_eq!(a.get_elapsed_time(100), 60);
    assert_eq!(a.get_elapsed_time(10), 0);
    a.stop_activity();
    assert!(!a.is_tracking());
}

#[test]
fn settings_defaults() {
    let p = PomodoroSettings::default();
    assert_eq!(p.work_duration, 25 * 60 * 1000);
    assert_eq!(UISettings::default().language, "zh-CN");
    assert_eq!(StorageSettings::default().backup_retention_days, 30);
    let shell = ShellConfig::default();
    assert_eq!(shell.pomodoro_duration, 25);
    assert_eq!(shell.idle_detection_threshold, 300);
    assert!(shell.data_dir.ends_with("timetracker/data") || shell.data_dir.ends_with("TimeTracker/data"));
    assert_eq!(dir_or(None, "./config"), "./config");
    assert_eq!(dir_or(Some("/home/x/.config".to_string()), "./config"), "/home/x/.config");
    let manager = HotkeyManager::new(HotkeyConfig::default());
    let _ = manager;
}

#[test]
fn key_codes_name_keys_up_to_255() {
    assert_eq!(time_tracker::hotkeys::key_from_code(255), Ok(255));
    assert_eq!(time_tracker::hotkeys::key_from_code(256), Err("Invalid key value".to_string()));
}

#[test]
fn test_cli_start_pomodoro() {
    let pomodoro = PomodoroTimer::new(PomodoroConfig::default(), NoCallbacks);
    let mut runner = CliRunner::new((), pomodoro);

    runner.start_pomodoro(1, None, Vec::new()).unwrap();
    assert!(matches!(runner.pomodoro().get_state(), PomodoroState::Working));
}

#[test]
fn default_hotkeys_are_the_six_ctrl_shortcuts() {
    let b = HotkeyConfig::default_bindings();
    let expected: Vec<(&str, u32)> = vec![
        ("toggle_pomodoro", 32),
        ("start_break", 66),
        ("show_overview", 49),
        ("show_app_stats", 50),
        ("show_pomodoro", 51),
        ("quit", 81),
    ];
    assert_eq!(b.len(), 6);
    for (i, (name, key)) in expected.iter().enumerate() {
        assert_eq!(b[i].0, *name);
        assert_eq!(b[i].1.key, *key);
        assert_eq!(b[i].1.modifiers, vec![Modifier::Ctrl]);
    }
    let c = HotkeyConfig::default();
    assert!(c.enabled);
    assert_eq!(c.bindings.len(), 6);
}

#[test]
fn stats_without_dates_cover_the_last_thirty_days() {
    let runner = CliRunner::new((), PomodoroTimer::new(PomodoroConfig::default(), NoCallbacks));
    let q = runner.show_stats(&None, &None, &None, "text").unwrap();
    assert_eq!(q.format, None);
    assert_eq!(q.project, None);
    assert!(q.end - q.start >= THIRTY_DAYS_MS);
    assert!(q.end - q.start < THIRTY_DAYS_MS + 60_000);
    assert_eq!(default_start_from(THIRTY_DAYS_MS + 5), 5);
    assert_eq!(default_start_from(i64::MIN + 10), i64::MIN);
    // 2024-01-01T00:00:00 read as UTC is 1_704_067_200_000 ms; the local time lies within a day of it.
    let t = day_bound("2024-01-01", 0, 0, 0).unwrap();
    assert!((t - 1_704_067_200_000).abs() < 86_400_000);
    let e = day_bound("2024-01-31", 23, 59, 59).unwrap();
    assert!((e - (1_704_067_200_000 + 30 * 86_400_000 + 86_399_000)).abs() < 86_400_000);
}

#[test]
fn timer_reports_ticks_and_completions_to_its_callbacks() {
    let mut config = PomodoroConfig::default();
    config.work_duration = 60_000;
    let mut t = PomodoroTimer::new(config, Count { ticks: Cell::new(0), last: Cell::new(0), completes: Cell::new(0) });
    t.start_at(1_000).unwrap();
    t.update_at(11_000, 0).unwrap();
    assert_eq!(t.callbacks().ticks.get(), 1);
    assert_eq!(t.callbacks().last.get(), 50_000);
    assert_eq!(t.callbacks().completes.get(), 0);
    t.update_at(200_000, 0).unwrap();
    assert_eq!(t.callbacks().ticks.get(), 1);
    assert_eq!(t.callbacks().completes.get(), 1);
}

struct Count {
    ticks: Cell<u32>,
    last: Cell<u64>,
    completes: Cell<u32>,
}

impl PomodoroCallbacks for Count {
    fn on_tick(&self, remaining: u64) {
        self.ticks.set(self.ticks.get() + 1);
        self.last.set(remaining);
    }
    fn on_complete(&self) {
        self.completes.set(self.completes.get() + 1);
    }
    fn on_pause(&self) {}
    fn on_resume(&self) {}
}

#[test]
fn stats_report_the_first_failing_date() {
    let runner = CliRunner::new((), PomodoroTimer::new(PomodoroConfig::default(), NoCallbacks));
    let both_bad = runner.show_stats(&Some("bad".to_string()), &Some("worse".to_string()), &None, "pdf");
    let from_only = runner.show_stats(&Some("bad".to_string()), &None, &None, "text");
    match (both_bad, from_only) {
        (Err(TimeTrackerError::Parse(a)), Err(TimeTrackerError::Parse(b))) => assert_eq!(a, b),
        other => panic!("unexpected {:?}", other),
    }
    assert!(matches!(
        runner.show_stats(&Some("2024-01-01".to_string()), &Some("worse".to_string()), &None, "pdf"),
        Err(TimeTrackerError::Parse(_))
    ));
}
