use vstd::prelude::*;
use std::collections::VecDeque;
use crate::clock;
use crate::paths::{joined_path, plain_name};
use crate::error::text;
use crate::text::{decimal, push_decimal, push_str, string_of};

verus! {

/// How many log entries are kept in memory.
pub const MAX_IN_MEMORY_LOGS: usize = 1000;

/// Severity of a log entry, most severe first.
#[derive(Debug, Clone, Copy, PartialEq, Eq, Structural)]
pub enum LogLevel {
    Error,
    Warn,
    Info,
    Debug,
    Trace,
}

/// Rank of a level: 1 for errors up to 5 for traces (a level is enabled when
/// its rank is at most that of the maximum level).
pub open spec fn rank(l: LogLevel) -> nat {
    match l {
        LogLevel::Error => 1,
        LogLevel::Warn => 2,
        LogLevel::Info => 3,
        LogLevel::Debug => 4,
        LogLevel::Trace => 5,
    }
}

/// The level as the log crate writes it.
pub open spec fn level_text(l: LogLevel) -> Seq<char> {
    match l {
        LogLevel::Error => "ERROR"@,
        LogLevel::Warn => "WARN"@,
        LogLevel::Info => "INFO"@,
        LogLevel::Debug => "DEBUG"@,
        LogLevel::Trace => "TRACE"@,
    }
}

fn level_rank(l: LogLevel) -> (r: u8)
    ensures
        r == rank(l),
{
    match l {
        LogLevel::Error => 1,
        LogLevel::Warn => 2,
        LogLevel::Info => 3,
        LogLevel::Debug => 4,
        LogLevel::Trace => 5,
    }
}

fn level_str(l: LogLevel) -> (r: &'static str)
    ensures
        r@ == level_text(l),
{
    match l {
        LogLevel::Error => "ERROR",
        LogLevel::Warn => "WARN",
        LogLevel::Info => "INFO",
        LogLevel::Debug => "DEBUG",
        LogLevel::Trace => "TRACE",
    }
}

/// One log record; `timestamp` is a millisecond timestamp.
#[derive(Debug)]
pub struct LogEntry {
    pub timestamp: i64,
    pub level: LogLevel,
    pub target: String,
    pub message: String,
    pub module: Option<String>,
    pub file: Option<String>,
    pub line: Option<u32>,
}

fn copy_opt(s: &Option<String>) -> (r: Option<String>)
    ensures
        r == *s,
{
    match s {
        Some(t) => Some(t.clone()),
        None => None,
    }
}

impl LogEntry {
    /// A field-for-field copy.
    pub fn duplicate(&self) -> (r: LogEntry)
        ensures
            r == *self,
    {
        LogEntry {
            timestamp: self.timestamp,
            level: self.level,
            target: self.target.clone(),
            message: self.message.clone(),
            module: copy_opt(&self.module),
            file: copy_opt(&self.file),
            line: self.line,
        }
    }
}

/// The last `n` elements of `s` (all of them when there are fewer).
pub open spec fn keep_last<T>(s: Seq<T>, n: nat) -> Seq<T> {
    if s.len() <= n { s } else { s.subrange(s.len() - n, s.len() as int) }
}

/// The entries kept after adding `e`: the oldest one leaves when the buffer
/// is full.
pub open spec fn after_add(recent: Seq<LogEntry>, e: LogEntry) -> Seq<LogEntry> {
    if recent.len() >= MAX_IN_MEMORY_LOGS { recent.drop_first().push(e) } else { recent.push(e) }
}

/// The entries of one level, in order.
pub open spec fn of_level(s: Seq<LogEntry>, level: LogLevel) -> Seq<LogEntry>
    decreases s.len(),
{
    if s.len() == 0 {
        seq![]
    } else if s.last().level == level {
        of_level(s.drop_last(), level).push(s.last())
    } else {
        of_level(s.drop_last(), level)
    }
}

/// The entries at least as severe as `level`, in order.
pub open spec fn up_to_level(s: Seq<LogEntry>, level: LogLevel) -> Seq<LogEntry>
    decreases s.len(),
{
    if s.len() == 0 {
        seq![]
    } else if rank(s.last().level) <= rank(level) {
        up_to_level(s.drop_last(), level).push(s.last())
    } else {
        up_to_level(s.drop_last(), level)
    }
}

/// The line written to the log file for an entry, given its time as text:
/// `[<time> <LEVEL> <target> <file>:<line>] <message>` and a newline; an
/// unknown file is written `unknown`, an unknown line `0`.
pub open spec fn file_line(e: LogEntry, time: Seq<char>) -> Seq<char> {
    seq!['['] + time + seq![' '] + level_text(e.level) + seq![' '] + e.target@ + seq![' ']
        + (match e.file { Some(f) => f@, None => "unknown"@ }) + seq![':']
        + decimal(match e.line { Some(l) => l as nat, None => 0 }) + seq![']', ' '] + e.message@ + seq!['\n']
}

/// Keeps the most recent log entries in memory.
pub struct Logger {
    recent_logs: VecDeque<LogEntry>,
}

impl Logger {
    /// The entries kept, oldest first.
    pub closed spec fn spec_recent(&self) -> Seq<LogEntry> {
        self.recent_logs@
    }

    /// A logger with no entries.
    pub fn new() -> (l: Logger)
        ensures
            l.spec_recent().len() == 0,
    {
        Logger { recent_logs: VecDeque::new() }
    }

    /// Adds an entry; when the buffer is full the oldest entry leaves.
    pub fn add_log_entry(&mut self, entry: LogEntry)
        ensures
            final(self).spec_recent() == after_add(old(self).spec_recent(), entry),
    {
        if self.recent_logs.len() >= MAX_IN_MEMORY_LOGS {
            self.recent_logs.pop_front();
        }
        self.recent_logs.push_back(entry);
        proof {
            assert(self.recent_logs@ =~= after_add(old(self).spec_recent(), entry));
        }
    }

    /// Records an entry whose level is enabled under `max_level`, and returns
    /// the line to write to the log file; entries of a disabled level are
    /// ignored.
    pub fn log(&mut self, entry: LogEntry, max_level: LogLevel) -> (line: Option<String>)
        ensures
            rank(entry.level) <= rank(max_level) ==> final(self).spec_recent() == after_add(
                old(self).spec_recent(),
                entry,
            ) && (line matches Some(t) && exists|time: Seq<char>| t@ == file_line(entry, time)
                && #[trigger] clock::local_text_of(entry.timestamp as int, "%Y-%m-%d %H:%M:%S"@, time)),
            rank(entry.level) > rank(max_level) ==> final(self).spec_recent() == old(self).spec_recent()
                && line is None,
    {
        if level_rank(entry.level) <= level_rank(max_level) {
            let formatted = format_file_line(&entry);
            self.add_log_entry(entry);
            Some(formatted)
        } else {
            None
        }
    }

    /// A copy of the kept entries, oldest first.
    pub fn get_recent_logs(&self) -> (r: Vec<LogEntry>)
        ensures
            r@ == self.spec_recent(),
    {
        let mut out: Vec<LogEntry> = Vec::new();
        let n = self.recent_logs.len();
        let mut i: usize = 0;
        while i < n
            invariant
                n == self.recent_logs@.len(),
                i <= n,
                out@ =~= self.recent_logs@.take(i as int),
            decreases n - i,
        {
            out.push(self.recent_logs[i].duplicate());
            i = i + 1;
        }
        assert(self.recent_logs@.take(n as int) =~= self.recent_logs@);
        out
    }

    /// Copies of the kept entries at least as severe as `level`, oldest
    /// first.
    pub fn get_recent_logs_up_to_level(&self, level: LogLevel) -> (r: Vec<LogEntry>)
        ensures
            r@ == up_to_level(self.spec_recent(), level),
    {
        let mut out: Vec<LogEntry> = Vec::new();
        let n = self.recent_logs.len();
        let max = level_rank(level);
        let mut i: usize = 0;
        while i < n
            invariant
                n == self.recent_logs@.len(),
                i <= n,
                max == rank(level),
                out@ == up_to_level(self.recent_logs@.take(i as int), level),
            decreases n - i,
        {
            proof {
                assert(self.recent_logs@.take(i + 1).drop_last() =~= self.recent_logs@.take(i as int));
            }
            if level_rank(self.recent_logs[i].level) <= max {
                out.push(self.recent_logs[i].duplicate());
            }
            i = i + 1;
        }
        assert(self.recent_logs@.take(n as int) =~= self.recent_logs@);
        out
    }

    /// Copies of the kept entries of one level, oldest first.
    pub fn get_recent_logs_by_level(&self, level: LogLevel) -> (r: Vec<LogEntry>)
        ensures
            r@ == of_level(self.spec_recent(), level),
    {
        let mut out: Vec<LogEntry> = Vec::new();
        let n = self.recent_logs.len();
        let mut i: usize = 0;
        while i < n
            invariant
                n == self.recent_logs@.len(),
                i <= n,
                out@ == of_level(self.recent_logs@.take(i as int), level),
            decreases n - i,
        {
            proof {
                assert(self.recent_logs@.take(i + 1).drop_last() =~= self.recent_logs@.take(i as int));
            }
            if self.recent_logs[i].level == level {
                out.push(self.recent_logs[i].duplicate());
            }
            i = i + 1;
        }
        assert(self.recent_logs@.take(n as int) =~= self.recent_logs@);
        out
    }
}

/// The line written to the log file for an entry, its time in the local zone
/// as `%Y-%m-%d %H:%M:%S`.
pub fn format_file_line(e: &LogEntry) -> (s: String)
    ensures
        exists|time: Seq<char>| s@ == file_line(*e, time) && #[trigger] clock::local_text_of(e.timestamp as int, "%Y-%m-%d %H:%M:%S"@, time),
{
    let time = clock::local_format(e.timestamp, "%Y-%m-%d %H:%M:%S");
    let mut out: Vec<char> = Vec::new();
    out.push('[');
    push_str(&mut out, time.as_str());
    out.push(' ');
    push_str(&mut out, level_str(e.level));
    out.push(' ');
    push_str(&mut out, e.target.as_str());
    out.push(' ');
    match &e.file {
        Some(f) => push_str(&mut out, f.as_str()),
        None => push_str(&mut out, "unknown"),
    }
    out.push(':');
    let line: u32 = match e.line {
        Some(l) => l,
        None => 0,
    };
    push_decimal(&mut out, line as u64);
    out.push(']');
    out.push(' ');
    push_str(&mut out, e.message.as_str());
    out.push('\n');
    assert(out@ =~= file_line(*e, time@));
    string_of(&out)
}

/// The short line of an entry, given its time as text:
/// `<time> [<LEVEL>] <target>: <message>` and a newline.
pub open spec fn record_line(e: LogEntry, time: Seq<char>) -> Seq<char> {
    time + " ["@ + level_text(e.level) + "] "@ + e.target@ + ": "@ + e.message@ + "\n"@
}

/// The short line of an entry, its time in the local zone as
/// `%Y-%m-%d %H:%M:%S`.
pub fn format_record_line(e: &LogEntry) -> (s: String)
    ensures
        exists|time: Seq<char>| s@ == record_line(*e, time) && #[trigger] clock::local_text_of(e.timestamp as int, "%Y-%m-%d %H:%M:%S"@, time),
{
    let time = clock::local_format(e.timestamp, "%Y-%m-%d %H:%M:%S");
    let mut out: Vec<char> = Vec::new();
    push_str(&mut out, time.as_str());
    push_str(&mut out, " [");
    push_str(&mut out, level_str(e.level));
    push_str(&mut out, "] ");
    push_str(&mut out, e.target.as_str());
    push_str(&mut out, ": ");
    push_str(&mut out, e.message.as_str());
    push_str(&mut out, "\n");
    assert(out@ =~= record_line(*e, time@));
    string_of(&out)
}

/// The name of the log file of the day `date` (written `%Y-%m-%d`).
pub fn log_file_name(date: &str) -> (s: String)
    ensures
        s@ == "time_tracker_"@ + date@ + ".log"@,
{
    let mut out: Vec<char> = Vec::new();
    push_str(&mut out, "time_tracker_");
    push_str(&mut out, date);
    push_str(&mut out, ".log");
    assert(out@ =~= "time_tracker_"@ + date@ + ".log"@);
    string_of(&out)
}

/// `p` is the log file of the day `date` under the data directory `base`:
/// `base`, then `time_tracker`, then `logs`, then `time_tracker_<date>.log`,
/// each adjoined as a path component.
pub open spec fn log_path_parts(base: Seq<char>, app: Seq<char>, dir: Seq<char>, date: Seq<char>, p: Seq<char>) -> bool {
    &&& clock::stamp_chars(date)
    &&& joined_path(base, "time_tracker"@, app)
    &&& joined_path(app, "logs"@, dir)
    &&& joined_path(dir, "time_tracker_"@ + date + ".log"@, p)
}

/// A log file name of a date written in digits and signs is a single path
/// component.
pub proof fn lemma_log_name_plain(date: Seq<char>)
    requires
        clock::stamp_chars(date),
    ensures
        plain_name("time_tracker_"@ + date + ".log"@),
{
    reveal_strlit("time_tracker_");
    reveal_strlit(".log");
    let head = "time_tracker_"@;
    let tail = ".log"@;
    assert(head =~= seq!['t', 'i', 'm', 'e', '_', 't', 'r', 'a', 'c', 'k', 'e', 'r', '_']);
    assert(tail =~= seq!['.', 'l', 'o', 'g']);
    assert(crate::paths::separator_free(date));
    crate::paths::lemma_separator_free_concat(head, date);
    crate::paths::lemma_separator_free_concat(head + date, tail);
    let n = head + date + tail;
    assert(n.len() > 2);
    assert(n[0] == 't');
}

/// The default log file: `time_tracker/logs/time_tracker_<local date>.log`
/// under the user's data directory (or under `.`).
pub fn get_default_log_path() -> (p: String)
    ensures
        exists|base: Seq<char>, app: Seq<char>, dir: Seq<char>, date: Seq<char>|
            #[trigger] log_path_parts(base, app, dir, date, p@),
{
    let base = crate::settings_file::dir_or(crate::paths::user_data_dir(), ".");
    let app = crate::paths::join_path(base.as_str(), "time_tracker");
    let dir = crate::paths::join_path(app.as_str(), "logs");
    let date = clock::local_format(clock::current_time_millis(), "%Y-%m-%d");
    let name = log_file_name(date.as_str());
    proof {
        crate::paths::lemma_plain_names();
        lemma_log_name_plain(date@);
    }
    let p = crate::paths::join_path(dir.as_str(), name.as_str());
    assert(log_path_parts(base@, app@, dir@, date@, p@));
    p
}

/// The entry as shown in the interface: `<time> [<LEVEL>] <message>`, its
/// time in the local zone as `%H:%M:%S`.
pub fn format_log_entry(e: &LogEntry) -> (s: String)
    ensures
        exists|time: Seq<char>| s@ == time + " ["@ + level_text(e.level) + "] "@ + e.message@
            && #[trigger] clock::local_text_of(e.timestamp as int, "%H:%M:%S"@, time),
{
    let time = clock::local_format(e.timestamp, "%H:%M:%S");
    let mut out: Vec<char> = Vec::new();
    push_str(&mut out, time.as_str());
    push_str(&mut out, " [");
    push_str(&mut out, level_str(e.level));
    push_str(&mut out, "] ");
    push_str(&mut out, e.message.as_str());
    assert(out@ =~= time@ + " ["@ + level_text(e.level) + "] "@ + e.message@);
    string_of(&out)
}

/// The buffer always holds the most recent entries: if it held the last
/// `MAX_IN_MEMORY_LOGS` of a history, adding one more entry leaves it holding
/// the last `MAX_IN_MEMORY_LOGS` of the longer history. Hence it never grows
/// beyond that bound and the newest entry is always last.
pub proof fn law_recent_window(history: Seq<LogEntry>, e: LogEntry)
    ensures
        after_add(keep_last(history, MAX_IN_MEMORY_LOGS as nat), e) == keep_last(
            history.push(e),
            MAX_IN_MEMORY_LOGS as nat,
        ),
        keep_last(history.push(e), MAX_IN_MEMORY_LOGS as nat).len() <= MAX_IN_MEMORY_LOGS,
        keep_last(history.push(e), MAX_IN_MEMORY_LOGS as nat).last() == e,
{
    let m = MAX_IN_MEMORY_LOGS as nat;
    let k = keep_last(history, m);
    let h2 = history.push(e);
    if history.len() < m {
        assert(after_add(k, e) =~= keep_last(h2, m));
    } else {
        assert(k.len() == m);
        assert(after_add(k, e) =~= keep_last(h2, m));
    }
}

} // verus!
