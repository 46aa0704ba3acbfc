use vstd::prelude::*;
use crate::error::text;
use crate::paths::{app_folder, app_folder_name, join_path, joined_path, lemma_plain_names, user_config_dir, user_data_dir, user_preference_dir, xdg_layout, host_layout_is_xdg};
use crate::config::{data_dir_in, data_path_parts};

verus! {

/// The directory to use: the one found, or `fallback` where none was.
pub fn dir_or(found: Option<String>, fallback: &str) -> (r: String)
    ensures
        r@ == match found {
            Some(d) => d@,
            None => fallback@,
        },
{
    match found {
        Some(d) => d,
        None => text(fallback),
    }
}

/// The settings directory `dir` is the application folder of the layout
/// adjoined to `base`, and the settings file `path` is `config.json` adjoined
/// to `dir`.
pub open spec fn settings_location(base: Seq<char>, xdg: bool, dir: Seq<char>, path: Seq<char>) -> bool {
    &&& joined_path(base, app_folder(xdg), dir)
    &&& joined_path(dir, "config.json"@, path)
}

/// The flat settings of the desktop shell. Durations are in minutes, the idle
/// threshold in seconds.
#[derive(Debug, Clone)]
pub struct Config {
    pub data_dir: String,
    pub autostart: bool,
    pub minimize_to_tray: bool,
    pub start_minimized: bool,
    pub theme: String,
    pub language: String,
    pub pomodoro_duration: i32,
    pub short_break_duration: i32,
    pub long_break_duration: i32,
    pub long_break_interval: i32,
    pub auto_start_break: bool,
    pub auto_start_work: bool,
    pub notification_sound: bool,
    pub idle_detection_enabled: bool,
    pub idle_detection_threshold: i32,
}

impl Default for Config {
    /// The defaults; the data directory is `data` in the application folder
    /// under the user's data directory, or under `./data` where there is none.
    fn default() -> (c: Config)
        ensures
            exists|base: Seq<char>, xdg: bool, app: Seq<char>| #[trigger] data_path_parts(base, xdg, app, c.data_dir@),
            !c.autostart,
            c.minimize_to_tray,
            !c.start_minimized,
            c.theme@ == "system"@,
            c.language@ == "en"@,
            c.pomodoro_duration == 25,
            c.short_break_duration == 5,
            c.long_break_duration == 15,
            c.long_break_interval == 4,
            c.auto_start_break,
            !c.auto_start_work,
            c.notification_sound,
            c.idle_detection_enabled,
            c.idle_detection_threshold == 300,
    {
        let base = dir_or(user_data_dir(), "./data");
        let xdg = host_layout_is_xdg();
        let data_dir = data_dir_in(base.as_str(), xdg);
        let ghost app = choose|app: Seq<char>| data_path_parts(base@, xdg, app, data_dir@);
        let c = Config {
            data_dir,
            autostart: false,
            minimize_to_tray: true,
            start_minimized: false,
            theme: text("system"),
            language: text("en"),
            pomodoro_duration: 25,
            short_break_duration: 5,
            long_break_duration: 15,
            long_break_interval: 4,
            auto_start_break: true,
            auto_start_work: false,
            notification_sound: true,
            idle_detection_enabled: true,
            idle_detection_threshold: 300,
        };
        assert(data_path_parts(base@, xdg, app, c.data_dir@));
        c
    }
}

/// Where the shell settings are kept: `config.json` in the application
/// folder under the user's configuration directory (or under `./config`).
/// Creating the directory, reading and writing the file are the caller's.
pub struct ConfigManager {
    config_dir: String,
    config_path: String,
}

impl ConfigManager {
    /// The directory that holds the settings file.
    pub closed spec fn spec_dir(&self) -> Seq<char> {
        self.config_dir@
    }

    /// The settings file.
    pub closed spec fn spec_path(&self) -> Seq<char> {
        self.config_path@
    }

    /// The directory is the application folder adjoined to the user's
    /// configuration directory (or to `./config`), the file `config.json`
    /// adjoined to it.
    pub fn new() -> (m: ConfigManager)
        ensures
            exists|base: Seq<char>, xdg: bool| #[trigger] settings_location(base, xdg, m.spec_dir(), m.spec_path()),
    {
        let found = user_config_dir();
        let preference = user_preference_dir();
        let xdg = xdg_layout(&found, &preference);
        let base = dir_or(found, "./config");
        proof {
            lemma_plain_names();
        }
        let config_dir = join_path(base.as_str(), app_folder_name(xdg));
        let config_path = join_path(config_dir.as_str(), "config.json");
        let m = ConfigManager { config_dir, config_path };
        assert(settings_location(base@, xdg, m.spec_dir(), m.spec_path()));
        m
    }

    /// The directory that holds the settings file.
    pub fn config_dir(&self) -> (d: &String)
        ensures
            d@ == self.spec_dir(),
    {
        &self.config_dir
    }

    /// The settings file.
    pub fn config_path(&self) -> (p: &String)
        ensures
            p@ == self.spec_path(),
    {
        &self.config_path
    }
}

/// The file store of the application settings: `config.json` in the
/// application folder under the user's configuration directory (or
/// under `./config`). Creating the directory, reading and writing the file are
/// the caller's.
pub struct FileConfigManager {
    config_dir: String,
    config_path: String,
}

impl FileConfigManager {
    /// The directory that holds the settings file.
    pub closed spec fn spec_dir(&self) -> Seq<char> {
        self.config_dir@
    }

    /// The settings file.
    pub closed spec fn spec_path(&self) -> Seq<char> {
        self.config_path@
    }

    /// The directory is the application folder adjoined to the user's
    /// configuration directory (or to `./config`), the file `config.json`
    /// adjoined to it.
    pub fn new() -> (m: FileConfigManager)
        ensures
            exists|base: Seq<char>, xdg: bool| #[trigger] settings_location(base, xdg, m.spec_dir(), m.spec_path()),
    {
        let found = user_config_dir();
        let preference = user_preference_dir();
        let xdg = xdg_layout(&found, &preference);
        let base = dir_or(found, "./config");
        proof {
            lemma_plain_names();
        }
        let config_dir = join_path(base.as_str(), app_folder_name(xdg));
        let config_path = join_path(config_dir.as_str(), "config.json");
        let m = FileConfigManager { config_dir, config_path };
        assert(settings_location(base@, xdg, m.spec_dir(), m.spec_path()));
        m
    }

    /// The directory that holds the settings file.
    pub fn config_dir(&self) -> (d: &String)
        ensures
            d@ == self.spec_dir(),
    {
        &self.config_dir
    }

    /// The settings file.
    pub fn config_path(&self) -> (p: &String)
        ensures
            p@ == self.spec_path(),
    {
        &self.config_path
    }
}

} // verus!
