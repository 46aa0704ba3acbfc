use vstd::prelude::*;
use crate::error::text;

verus! {

/// Timer settings of the layered services; durations in milliseconds.
#[derive(Debug, Clone, Copy)]
pub struct PomodoroSettings {
    pub work_duration: u64,
    pub short_break_duration: u64,
    pub long_break_duration: u64,
    pub long_break_interval: u32,
}

/// Interface settings of the layered services.
#[derive(Debug, Clone)]
pub struct UISettings {
    pub theme: String,
    pub language: String,
    pub show_system_tray: bool,
    pub minimize_to_tray: bool,
    pub start_minimized: bool,
}

/// Storage settings of the layered services.
#[derive(Debug, Clone)]
pub struct StorageSettings {
    pub database_path: String,
    pub backup_path: String,
    pub auto_backup: bool,
    pub backup_interval_days: u32,
    pub backup_retention_days: u32,
}

impl Default for PomodoroSettings {
    /// 25 minute work phases, 5 and 15 minute breaks, a long break every 4.
    fn default() -> (s: PomodoroSettings)
        ensures
            s.work_duration == 25 * 60 * 1000,
            s.short_break_duration == 5 * 60 * 1000,
            s.long_break_duration == 15 * 60 * 1000,
            s.long_break_interval == 4,
    {
        PomodoroSettings {
            work_duration: 25 * 60 * 1000,
            short_break_duration: 5 * 60 * 1000,
            long_break_duration: 15 * 60 * 1000,
            long_break_interval: 4,
        }
    }
}

impl Default for UISettings {
    /// System theme, Chinese (`zh-CN`), tray icon shown and used when
    /// minimising, not started minimised.
    fn default() -> (s: UISettings)
        ensures
            s.theme@ == "system"@,
            s.language@ == "zh-CN"@,
            s.show_system_tray,
            s.minimize_to_tray,
            !s.start_minimized,
    {
        UISettings {
            theme: text("system"),
            language: text("zh-CN"),
            show_system_tray: true,
            minimize_to_tray: true,
            start_minimized: false,
        }
    }
}

impl Default for StorageSettings {
    /// `time_tracker.db`, backups in `backups` every 7 days kept 30 days.
    fn default() -> (s: StorageSettings)
        ensures
            s.database_path@ == "time_tracker.db"@,
            s.backup_path@ == "backups"@,
            s.auto_backup,
            s.backup_interval_days == 7,
            s.backup_retention_days == 30,
    {
        StorageSettings {
            database_path: text("time_tracker.db"),
            backup_path: text("backups"),
            auto_backup: true,
            backup_interval_days: 7,
            backup_retention_days: 30,
        }
    }
}

} // verus!
