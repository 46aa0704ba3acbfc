use vstd::prelude::*;
use crate::backup::{extension, has_extension};
use crate::clock;
use crate::csvio::{self, csv_encoding, record_view};
use crate::error::{text, AppError};
use crate::text::{push_str, string_of};

verus! {

/// What the plugin registry reports about its plugins.
#[derive(Debug, Clone)]
pub enum PluginEvent {
    Loaded(String),
    Unloaded(String),
    Error(String),
}

/// The text of a failed load: `加载插件 <name> 失败: <error>`.
pub open spec fn load_failure_text(name: Seq<char>, error: Seq<char>) -> Seq<char> {
    "加载插件 "@ + name + " 失败: "@ + error
}

/// The text of a failed unload: `卸载插件 <name> 失败: <error>`.
pub open spec fn unload_failure_text(name: Seq<char>, error: Seq<char>) -> Seq<char> {
    "卸载插件 "@ + name + " 失败: "@ + error
}

/// The event reported when loading the plugin `name` failed with `error`.
pub fn load_failure(name: &str, error: &str) -> (e: PluginEvent)
    ensures
        e matches PluginEvent::Error(m) && m@ == load_failure_text(name@, error@),
{
    let mut out: Vec<char> = Vec::new();
    push_str(&mut out, "加载插件 ");
    push_str(&mut out, name);
    push_str(&mut out, " 失败: ");
    push_str(&mut out, error);
    PluginEvent::Error(string_of(&out))
}

/// The event reported when unloading the plugin `name` failed with `error`.
pub fn unload_failure(name: &str, error: &str) -> (e: PluginEvent)
    ensures
        e matches PluginEvent::Error(m) && m@ == unload_failure_text(name@, error@),
{
    let mut out: Vec<char> = Vec::new();
    push_str(&mut out, "卸载插件 ");
    push_str(&mut out, name);
    push_str(&mut out, " 失败: ");
    push_str(&mut out, error);
    PluginEvent::Error(string_of(&out))
}

/// The built-in plugin that exports activity data as CSV.
pub struct CsvExportPlugin;

/// The header of the CSV that the export plugin writes.
pub open spec fn csv_plugin_header() -> Seq<Seq<char>> {
    seq!["日期"@, "活动名称"@, "类别"@, "开始时间"@, "结束时间"@, "持续时间(分钟)"@, "是否生产性"@]
}

/// The first line of a report over a date range: `时间范围: <start> - <end>`
/// and a line break.
pub open spec fn report_range_text(start: Seq<char>, end: Seq<char>) -> Seq<char> {
    "时间范围: "@ + start + " - "@ + end + "\n"@
}

/// The report line for a range whose ends are already written as dates.
pub fn report_range_line(start_date: &str, end_date: &str) -> (r: String)
    ensures
        r@ == report_range_text(start_date@, end_date@),
{
    let mut out: Vec<char> = Vec::new();
    push_str(&mut out, "时间范围: ");
    push_str(&mut out, start_date);
    push_str(&mut out, " - ");
    push_str(&mut out, end_date);
    push_str(&mut out, "\n");
    assert(out@ =~= report_range_text(start_date@, end_date@));
    string_of(&out)
}

fn csv_plugin_header_row() -> (r: Vec<String>)
    ensures
        record_view(r@) == csv_plugin_header(),
{
    let mut r: Vec<String> = Vec::new();
    r.push(text("日期"));
    r.push(text("活动名称"));
    r.push(text("类别"));
    r.push(text("开始时间"));
    r.push(text("结束时间"));
    r.push(text("持续时间(分钟)"));
    r.push(text("是否生产性"));
    assert(record_view(r@) =~= csv_plugin_header());
    r
}

impl CsvExportPlugin {
    pub fn new() -> (p: CsvExportPlugin) {
        CsvExportPlugin
    }

    pub fn name(&self) -> (r: &'static str)
        ensures
            r@ == "csv_export"@,
    {
        "csv_export"
    }

    pub fn version(&self) -> (r: &'static str)
        ensures
            r@ == "1.0.0"@,
    {
        "1.0.0"
    }

    pub fn description(&self) -> (r: &'static str)
        ensures
            r@ == "CSV数据导出插件"@,
    {
        "CSV数据导出插件"
    }

    /// The report over the range from `start` to `end` (millisecond
    /// timestamps): its range line, each end written as a local
    /// `%Y-%m-%d` date.
    pub fn generate_report(&self, start: i64, end: i64) -> (r: Result<String, AppError>)
        ensures
            r matches Ok(s) && exists|a: Seq<char>, b: Seq<char>| {
                &&& s@ == #[trigger] report_range_text(a, b)
                &&& clock::local_text_of(start as int, "%Y-%m-%d"@, a)
                &&& clock::local_text_of(end as int, "%Y-%m-%d"@, b)
            },
    {
        let a = clock::local_format(start, "%Y-%m-%d");
        let b = clock::local_format(end, "%Y-%m-%d");
        Ok(report_range_line(a.as_str(), b.as_str()))
    }

    /// The CSV export over the range from `start` to `end`: its header row.
    pub fn export_data(&self, start: i64, end: i64) -> (r: Result<Vec<u8>, AppError>)
        ensures
            r is Ok,
            r matches Ok(bytes) ==> bytes@ == csv_encoding(seq![csv_plugin_header()]),
    {
        let mut w = csvio::csv_buffer();
        let header = csv_plugin_header_row();
        match csvio::csv_write_record(&mut w, &header) {
            Ok(()) => {},
            Err(e) => {
                return Err(AppError::Csv(e));
            },
        }
        assert(csvio::csv_records(w) =~= seq![csv_plugin_header()]);
        match csvio::csv_into_inner(w) {
            Ok(bytes) => Ok(bytes),
            Err(e) => Err(AppError::Csv(e)),
        }
    }
}

/// The built-in plugin that shows system notifications.
pub struct SystemNotificationPlugin;

impl SystemNotificationPlugin {
    pub fn new() -> (p: SystemNotificationPlugin) {
        SystemNotificationPlugin
    }

    pub fn name(&self) -> (r: &'static str)
        ensures
            r@ == "system_notification"@,
    {
        "system_notification"
    }

    pub fn version(&self) -> (r: &'static str)
        ensures
            r@ == "1.0.0"@,
    {
        "1.0.0"
    }

    pub fn description(&self) -> (r: &'static str)
        ensures
            r@ == "系统通知插件"@,
    {
        "系统通知插件"
    }

    /// How long a notification of this plugin stays on screen, in
    /// milliseconds.
    pub fn timeout_ms(&self) -> (r: u32)
        ensures
            r == 5000,
    {
        5000
    }

    /// The icon a notification of this plugin shows.
    pub fn icon(&self) -> (r: &'static str)
        ensures
            r@ == "time-tracker"@,
    {
        "time-tracker"
    }
}

/// The built-in plugin that sends plain notifications.
pub struct NotificationPlugin;

impl NotificationPlugin {
    pub fn new() -> (p: NotificationPlugin) {
        NotificationPlugin
    }

    pub fn name(&self) -> (r: &'static str)
        ensures
            r@ == "通知插件"@,
    {
        "通知插件"
    }

    pub fn version(&self) -> (r: &'static str)
        ensures
            r@ == "1.0.0"@,
    {
        "1.0.0"
    }

    pub fn description(&self) -> (r: &'static str)
        ensures
            r@ == "提供系统通知功能"@,
    {
        "提供系统通知功能"
    }
}

/// The built-in plugin for basic statistics.
pub struct StatsPlugin;

impl StatsPlugin {
    pub fn new() -> (p: StatsPlugin) {
        StatsPlugin
    }

    pub fn name(&self) -> (r: &'static str)
        ensures
            r@ == "统计插件"@,
    {
        "统计插件"
    }

    pub fn version(&self) -> (r: &'static str)
        ensures
            r@ == "1.0.0"@,
    {
        "1.0.0"
    }

    pub fn description(&self) -> (r: &'static str)
        ensures
            r@ == "提供基本的统计功能"@,
    {
        "提供基本的统计功能"
    }
}

/// The built-in plugin that backs the database up into a directory.
pub struct BackupPlugin {
    pub backup_dir: String,
}

/// The database backups among file names: those with the extension `db`,
/// in their order.
pub open spec fn db_files(names: Seq<String>) -> Seq<String>
    decreases names.len(),
{
    if names.len() == 0 {
        Seq::empty()
    } else {
        let rest = db_files(names.drop_last());
        if extension(names.last()@) == Some("db"@) { rest.push(names.last()) } else { rest }
    }
}

impl BackupPlugin {
    pub fn new(backup_dir: String) -> (p: BackupPlugin)
        ensures
            p.backup_dir@ == backup_dir@,
    {
        BackupPlugin { backup_dir }
    }

    pub fn name(&self) -> (r: &'static str)
        ensures
            r@ == "备份插件"@,
    {
        "备份插件"
    }

    pub fn version(&self) -> (r: &'static str)
        ensures
            r@ == "1.0.0"@,
    {
        "1.0.0"
    }

    pub fn description(&self) -> (r: &'static str)
        ensures
            r@ == "提供数据库备份和恢复功能"@,
    {
        "提供数据库备份和恢复功能"
    }

    /// The file name of a backup made at `now`: `backup_<local time as
    /// %Y%m%d_%H%M%S>.db`.
    pub fn backup_name(&self, now: i64) -> (name: String)
        ensures
            exists|stamp: Seq<char>| name@ == "backup_"@ + stamp + ".db"@ && #[trigger] clock::local_text_of(now as int, "%Y%m%d_%H%M%S"@, stamp),
    {
        let stamp = clock::local_format(now, "%Y%m%d_%H%M%S");
        let mut out: Vec<char> = Vec::new();
        push_str(&mut out, "backup_");
        push_str(&mut out, stamp.as_str());
        push_str(&mut out, ".db");
        assert(out@ =~= "backup_"@ + stamp@ + ".db"@);
        string_of(&out)
    }

    /// The backups among the files of the backup directory: the names with
    /// the extension `db`, in their order.
    pub fn list_backups(&self, files: &Vec<String>) -> (r: Vec<String>)
        ensures
            r@ == db_files(files@),
    {
        let mut out: Vec<String> = Vec::new();
        let n = files.len();
        let mut i: usize = 0;
        while i < n
            invariant
                n == files@.len(),
                i <= n,
                out@ == db_files(files@.take(i as int)),
            decreases n - i,
        {
            assert(files@.take(i + 1).drop_last() =~= files@.take(i as int));
            if has_extension(&files[i], "db") {
                out.push(files[i].clone());
            }
            i = i + 1;
        }
        assert(files@.take(n as int) =~= files@);
        out
    }
}

} // verus!
