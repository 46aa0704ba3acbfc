pub mod error;
pub mod clock;
pub mod pomodoro;
pub mod hotkeys;
pub mod paths;
pub mod config;
pub mod text;
pub mod grouping;
pub mod platform;
pub mod app_tracker;
pub mod models;
pub mod analysis;
pub mod pattern;
pub mod rules;
pub mod csvio;
pub mod export;
pub mod logging;
pub mod stats;
pub mod backup;
pub mod export_plugin;
pub mod settings;
pub mod plugins;
pub mod plugin_manager;
pub mod notification;
pub mod settings_file;
pub mod cli;
pub mod sessions;
