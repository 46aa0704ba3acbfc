use vstd::prelude::*;
use crate::error::{text, TimeTrackerError};
use crate::hotkeys::HotkeyConfig;
use crate::paths;

verus! {

/// The colour scheme of the interface.
#[derive(Debug, Clone, Copy, PartialEq, Eq, Structural)]
pub enum Theme {
    Light,
    Dark,
    System,
}

/// General behaviour of the application.
#[derive(Debug, Clone)]
pub struct GeneralConfig {
    pub autostart: bool,
    pub minimize_to_tray: bool,
    pub language: String,
    pub check_updates: bool,
    pub hotkeys: HotkeyConfig,
}

/// Pomodoro timings as the user sets them; durations in milliseconds.
#[derive(Debug, Clone, Copy)]
pub struct PomodoroConfig {
    pub work_duration: u64,
    pub short_break_duration: u64,
    pub long_break_duration: u64,
    pub long_break_interval: u32,
    pub auto_start_breaks: bool,
    pub auto_start_pomodoros: bool,
    pub sound_enabled: bool,
    pub sound_volume: u8,
}

/// Automatic shutdown after a number of pomodoros. `scheduled_time` is a time
/// of day in seconds after midnight.
#[derive(Debug, Clone)]
pub struct ShutdownConfig {
    pub enabled: bool,
    pub pomodoros_before_shutdown: u32,
    pub delay_minutes: u32,
    pub show_confirmation: bool,
    pub auto_save_reminder: bool,
    pub notification_minutes: Vec<u32>,
    pub scheduled_time: Option<u32>,
}

/// Window and display settings.
#[derive(Debug, Clone, Copy)]
pub struct UiConfig {
    pub theme: Theme,
    pub font_size: u32,
    pub window_width: u32,
    pub window_height: u32,
    pub show_seconds: bool,
    pub compact_mode: bool,
}

/// Where data lives and how it is backed up; `backup_interval` in
/// milliseconds, `vacuum_threshold` in bytes.
#[derive(Debug, Clone)]
pub struct StorageConfig {
    pub data_dir: String,
    pub backup_enabled: bool,
    pub backup_interval: u64,
    pub max_backup_count: u32,
    pub vacuum_threshold: u64,
}

/// The whole configuration.
#[derive(Debug, Clone)]
pub struct Config {
    pub general: GeneralConfig,
    pub pomodoro: PomodoroConfig,
    pub shutdown: ShutdownConfig,
    pub ui: UiConfig,
    pub storage: StorageConfig,
    pub version: Option<u32>,
}

/// How many backups are kept when the setting is absent.
pub fn default_max_backup_count() -> (n: u32)
    ensures
        n == 7,
{
    7
}

/// Database size (bytes) beyond which it is vacuumed, when the setting is absent.
pub fn default_vacuum_threshold() -> (n: u64)
    ensures
        n == 100 * 1024 * 1024,
{
    100 * 1024 * 1024
}

impl Default for GeneralConfig {
    /// No autostart, minimise to tray, English, check for updates, default
    /// shortcuts.
    fn default() -> (c: GeneralConfig)
        ensures
            !c.autostart,
            c.minimize_to_tray,
            c.language@ == "en"@,
            c.check_updates,
            c.hotkeys.enabled,
            crate::hotkeys::is_default_bindings(c.hotkeys.bindings@),
    {
        GeneralConfig {
            autostart: false,
            minimize_to_tray: true,
            language: text("en"),
            check_updates: true,
            hotkeys: HotkeyConfig::default(),
        }
    }
}

impl Default for PomodoroConfig {
    /// 25 minute work phases, 5 and 15 minute breaks, a long break every 4,
    /// nothing started automatically, sound on at volume 80.
    fn default() -> (c: PomodoroConfig)
        ensures
            c.work_duration == 25 * 60 * 1000,
            c.short_break_duration == 5 * 60 * 1000,
            c.long_break_duration == 15 * 60 * 1000,
            c.long_break_interval == 4,
            !c.auto_start_breaks,
            !c.auto_start_pomodoros,
            c.sound_enabled,
            c.sound_volume == 80,
    {
        PomodoroConfig {
            work_duration: 25 * 60 * 1000,
            short_break_duration: 5 * 60 * 1000,
            long_break_duration: 15 * 60 * 1000,
            long_break_interval: 4,
            auto_start_breaks: false,
            auto_start_pomodoros: false,
            sound_enabled: true,
            sound_volume: 80,
        }
    }
}

impl Default for ShutdownConfig {
    /// Off; after 4 pomodoros with a 30 minute delay, confirmation and save
    /// reminder on, warnings at 30, 15, 5 and 1 minutes, no fixed time.
    fn default() -> (c: ShutdownConfig)
        ensures
            !c.enabled,
            c.pomodoros_before_shutdown == 4,
            c.delay_minutes == 30,
            c.show_confirmation,
            c.auto_save_reminder,
            c.notification_minutes@ == seq![30u32, 15u32, 5u32, 1u32],
            c.scheduled_time is None,
    {
        let mut minutes: Vec<u32> = Vec::new();
        minutes.push(30);
        minutes.push(15);
        minutes.push(5);
        minutes.push(1);
        ShutdownConfig {
            enabled: false,
            pomodoros_before_shutdown: 4,
            delay_minutes: 30,
            show_confirmation: true,
            auto_save_reminder: true,
            notification_minutes: minutes,
            scheduled_time: None,
        }
    }
}

impl Default for UiConfig {
    /// System theme, 14 point font, an 800x600 window, seconds shown, not compact.
    fn default() -> (c: UiConfig)
        ensures
            c.theme == Theme::System,
            c.font_size == 14,
            c.window_width == 800,
            c.window_height == 600,
            c.show_seconds,
            !c.compact_mode,
    {
        UiConfig {
            theme: Theme::System,
            font_size: 14,
            window_width: 800,
            window_height: 600,
            show_seconds: true,
            compact_mode: false,
        }
    }
}

impl Default for StorageConfig {
    /// `data` in the application folder under the user's data directory (or
    /// under `.` where there is none), daily backups kept 7 deep, vacuum
    /// beyond 100 MiB.
    fn default() -> (c: StorageConfig)
        ensures
            exists|base: Seq<char>, xdg: bool, app: Seq<char>| #[trigger] data_path_parts(base, xdg, app, c.data_dir@),
            c.backup_enabled,
            c.backup_interval == 24 * 60 * 60 * 1000,
            c.max_backup_count == 7,
            c.vacuum_threshold == 100 * 1024 * 1024,
    {
        let base = match paths::user_data_dir() {
            Some(d) => d,
            None => text("."),
        };
        let xdg = paths::host_layout_is_xdg();
        let data_dir = data_dir_in(base.as_str(), xdg);
        let ghost app = choose|app: Seq<char>| data_path_parts(base@, xdg, app, data_dir@);
        let c = StorageConfig {
            data_dir,
            backup_enabled: true,
            backup_interval: 24 * 60 * 60 * 1000,
            max_backup_count: 7,
            vacuum_threshold: 100 * 1024 * 1024,
        };
        assert(data_path_parts(base@, xdg, app, c.data_dir@));
        c
    }
}

/// `p` is the data directory under `base`: `base`, then the application
/// folder of the layout (`app`), then `data`, each adjoined as a path
/// component.
pub open spec fn data_path_parts(base: Seq<char>, xdg: bool, app: Seq<char>, p: Seq<char>) -> bool {
    &&& paths::joined_path(base, paths::app_folder(xdg), app)
    &&& paths::joined_path(app, "data"@, p)
}

/// The data directory under `base`: the application folder, then `data`.
pub fn data_dir_in(base: &str, xdg: bool) -> (p: String)
    ensures
        exists|app: Seq<char>| #[trigger] data_path_parts(base@, xdg, app, p@),
{
    proof {
        paths::lemma_plain_names();
    }
    let app = paths::join_path(base, paths::app_folder_name(xdg));
    let p = paths::join_path(app.as_str(), "data");
    assert(data_path_parts(base@, xdg, app@, p@));
    p
}

impl Default for Config {
    /// Every section at its default, no version recorded.
    fn default() -> (c: Config)
        ensures
            c.version is None,
            c.general.language@ == "en"@,
            c.general.hotkeys.enabled,
            c.pomodoro.work_duration == 25 * 60 * 1000,
            c.pomodoro.short_break_duration == 5 * 60 * 1000,
            c.pomodoro.long_break_duration == 15 * 60 * 1000,
            c.pomodoro.long_break_interval == 4,
            !c.shutdown.enabled,
            c.shutdown.delay_minutes == 30,
            c.ui.theme == Theme::System,
            c.ui.font_size == 14,
            c.ui.window_width == 800,
            c.ui.window_height == 600,
            c.storage.backup_enabled,
            c.storage.backup_interval == 24 * 60 * 60 * 1000,
            c.storage.max_backup_count == 7,
            c.storage.vacuum_threshold == 100 * 1024 * 1024,
            validation_error(c) is None,
    {
        Config {
            general: GeneralConfig::default(),
            pomodoro: PomodoroConfig::default(),
            shutdown: ShutdownConfig::default(),
            ui: UiConfig::default(),
            storage: StorageConfig::default(),
            version: None,
        }
    }
}

/// The message of the first rule a configuration breaks, in the order the
/// rules are checked, or `None` when it keeps them all.
pub open spec fn validation_error(c: Config) -> Option<Seq<char>> {
    if c.pomodoro.work_duration < 60 * 1000 {
        Some("Work duration must be at least 1 minute"@)
    } else if c.pomodoro.short_break_duration < 30 * 1000 {
        Some("Short break duration must be at least 30 seconds"@)
    } else if c.storage.max_backup_count == 0 {
        Some("Max backup count must be greater than 0"@)
    } else if c.storage.vacuum_threshold == 0 {
        Some("Vacuum threshold must be greater than 0"@)
    } else if c.storage.backup_interval < 60 * 1000 {
        Some("Backup interval must be at least 1 minute"@)
    } else if c.ui.window_width < 400 || c.ui.window_height < 300 {
        Some("Window size must be at least 400x300"@)
    } else if c.ui.font_size < 8 || c.ui.font_size > 32 {
        Some("Font size must be between 8 and 32"@)
    } else if c.shutdown.enabled && c.shutdown.delay_minutes == 0 {
        Some("Shutdown delay must be at least 1 minute"@)
    } else {
        None
    }
}

/// `p` is the settings file under the configuration directory `dir`: `dir`,
/// then the application folder of the layout (`app`), then `config.json`,
/// each adjoined as a path component.
pub open spec fn config_path_parts(dir: Seq<char>, xdg: bool, app: Seq<char>, p: Seq<char>) -> bool {
    &&& paths::joined_path(dir, paths::app_folder(xdg), app)
    &&& paths::joined_path(app, "config.json"@, p)
}

/// The settings file under the configuration directory `dir`.
pub fn config_file_in(dir: &str, xdg: bool) -> (p: String)
    ensures
        exists|app: Seq<char>| #[trigger] config_path_parts(dir@, xdg, app, p@),
{
    proof {
        paths::lemma_plain_names();
    }
    let app = paths::join_path(dir, paths::app_folder_name(xdg));
    let p = paths::join_path(app.as_str(), "config.json");
    assert(config_path_parts(dir@, xdg, app@, p@));
    p
}

/// The settings file under the configuration directory that was found, or
/// the error for a platform that has none.
pub fn config_path_from(dir: Option<String>, xdg: bool) -> (r: Result<String, TimeTrackerError>)
    ensures
        r is Ok <==> dir is Some,
        r matches Err(e) ==> (e matches TimeTrackerError::Config(m) && m@
            == "Could not determine config directory"@),
        r matches Ok(p) ==> (dir matches Some(d) && exists|app: Seq<char>| #[trigger] config_path_parts(d@, xdg, app, p@)),
{
    match dir {
        Some(d) => {
            let p = config_file_in(d.as_str(), xdg);
            let ghost app = choose|app: Seq<char>| config_path_parts(d@, xdg, app, p@);
            assert(config_path_parts(d@, xdg, app, p@));
            let r: Result<String, TimeTrackerError> = Ok(p);
            assert(r matches Ok(q) && config_path_parts(d@, xdg, app, q@));
            r
        },
        None => Err(TimeTrackerError::Config(text("Could not determine config directory"))),
    }
}

impl Config {
    /// Checks the configuration: work phases of at least a minute, short
    /// breaks of at least 30 seconds, a positive backup count and vacuum
    /// threshold, backups at least a minute apart, a window of at least
    /// 400x300, a font size in 8..=32, and a positive delay when automatic
    /// shutdown is on. The error names the first rule broken.
    pub fn validate(&self) -> (r: Result<(), TimeTrackerError>)
        ensures
            r is Ok <==> validation_error(*self) is None,
            r matches Err(e) ==> (e matches TimeTrackerError::Config(m) && Some(m@)
                == validation_error(*self)),
    {
        if self.pomodoro.work_duration < 60 * 1000 {
            return Err(TimeTrackerError::Config(text("Work duration must be at least 1 minute")));
        }
        if self.pomodoro.short_break_duration < 30 * 1000 {
            return Err(
                TimeTrackerError::Config(text("Short break duration must be at least 30 seconds")),
            );
        }
        if self.storage.max_backup_count == 0 {
            return Err(TimeTrackerError::Config(text("Max backup count must be greater than 0")));
        }
        if self.storage.vacuum_threshold == 0 {
            return Err(TimeTrackerError::Config(text("Vacuum threshold must be greater than 0")));
        }
        if self.storage.backup_interval < 60 * 1000 {
            return Err(TimeTrackerError::Config(text("Backup interval must be at least 1 minute")));
        }
        if self.ui.window_width < 400 || self.ui.window_height < 300 {
            return Err(TimeTrackerError::Config(text("Window size must be at least 400x300")));
        }
        if self.ui.font_size < 8 || self.ui.font_size > 32 {
            return Err(TimeTrackerError::Config(text("Font size must be between 8 and 32")));
        }
        if self.shutdown.enabled && self.shutdown.delay_minutes == 0 {
            return Err(TimeTrackerError::Config(text("Shutdown delay must be at least 1 minute")));
        }
        Ok(())
    }

    /// Brings an older configuration one version forward: unversioned (or
    /// version 0) becomes version 1, version 1 becomes version 2, later
    /// versions are left as they are.
    pub fn migrate(&mut self) -> (r: Result<(), TimeTrackerError>)
        ensures
            r is Ok,
            final(self).version == match old(self).version {
                None => Some(1u32),
                Some(0) => Some(1u32),
                Some(1) => Some(2u32),
                Some(v) => Some(v),
            },
            final(self).general == old(self).general,
            final(self).pomodoro == old(self).pomodoro,
            final(self).shutdown == old(self).shutdown,
            final(self).ui == old(self).ui,
            final(self).storage == old(self).storage,
    {
        let version = match self.version {
            Some(v) => v,
            None => 0,
        };
        if version == 0 {
            self.version = Some(1);
        } else if version == 1 {
            self.version = Some(2);
        }
        Ok(())
    }

    /// `config.json` in the application folder under the user's
    /// configuration directory; fails where the platform has no such
    /// directory.
    pub fn get_config_path() -> (r: Result<String, TimeTrackerError>)
        ensures
            r matches Err(e) ==> (e matches TimeTrackerError::Config(m) && m@
                == "Could not determine config directory"@),
            r matches Ok(p) ==> exists|dir: Seq<char>, xdg: bool, app: Seq<char>| #[trigger] config_path_parts(dir, xdg, app, p@),
    {
        let dir = paths::user_config_dir();
        let preference = paths::user_preference_dir();
        let xdg = paths::xdg_layout(&dir, &preference);
        config_path_from(dir, xdg)
    }
}

} // verus!
