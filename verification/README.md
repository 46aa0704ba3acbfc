# time_tracker

A desktop time tracker with a pomodoro timer, application-usage tracking,
classification rules, summaries, exports, backups and plugins. The logic is a
Verus library whose functions carry `requires`/`ensures` contracts proved by
Verus; the program around it (command line, files, notifications, zip
archives, logging sink) lives in `app/`.

## Layout

- `src/pomodoro.rs` – the timer state machine (`TimerView` model, laws about
  pausing, completing, stopping and the long-break cycle).
- `src/app_tracker.rs`, `src/grouping.rs` – application usage records and
  their totals per application and category.
- `src/rules.rs`, `src/pattern.rs` – classification rules over `regex`.
- `src/models.rs`, `src/analysis.rs`, `src/stats.rs` – activities, sessions,
  project summaries, daily/weekly/monthly summaries, productivity figures.
- `src/export.rs`, `src/export_plugin.rs`, `src/csvio.rs` – CSV and Markdown
  exports over the `csv` crate.
- `src/backup.rs` – backup names, selection and retention.
- `src/config.rs`, `src/settings.rs`, `src/settings_file.rs`, `src/hotkeys.rs`
  – settings with their defaults and validation.
- `src/logging.rs` – the bounded in-memory log window.
- `src/plugin_manager.rs`, `src/plugins.rs` – plugin registration state and
  the built-in plugins.
- `src/notification.rs`, `src/sessions.rs`, `src/cli.rs` – notifications,
  current session/activity, and the command-line front end.
- `src/clock.rs`, `src/paths.rs`, `src/text.rs` – calls into `chrono`, `dirs`
  and `std` behind contracts.

Durations are milliseconds (`u64`) and times are millisecond timestamps
(`i64`) throughout the library.
