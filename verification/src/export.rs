use vstd::prelude::*;
use crate::clock;
use crate::csvio::{self, csv_encoding, record_view};
use crate::error::{text, AppError};
use crate::models::{Activity, PomodoroSession, PomodoroStatus, Project};
use crate::text::{decimal, padded, push_decimal, push_padded, push_str, string_of};

verus! {

/// `HH:MM:SS` for a duration in milliseconds (whole seconds; hours may run
/// past two digits).
pub open spec fn duration_text(ms: nat) -> Seq<char> {
    let secs = ms / 1000;
    padded(secs / 3600, 2) + seq![':'] + padded((secs % 3600) / 60, 2) + seq![':'] + padded(secs % 60, 2)
}

/// Formats a duration as `HH:MM:SS`.
pub fn format_duration(ms: u64) -> (s: String)
    ensures
        s@ == duration_text(ms as nat),
{
    let total_seconds = ms / 1000;
    let hours = total_seconds / 3600;
    let minutes = (total_seconds % 3600) / 60;
    let seconds = total_seconds % 60;
    let mut out: Vec<char> = Vec::new();
    push_padded(&mut out, hours, 2);
    out.push(':');
    push_padded(&mut out, minutes, 2);
    out.push(':');
    push_padded(&mut out, seconds, 2);
    assert(out@ =~= duration_text(ms as nat));
    string_of(&out)
}

/// The decimal text of a signed number, with a leading `-` when negative.
pub open spec fn signed_text(i: int) -> Seq<char> {
    if i < 0 { seq!['-'] + decimal((-i) as nat) } else { decimal(i as nat) }
}

/// The text of an optional id: its number, or nothing.
pub open spec fn id_text(id: Option<i64>) -> Seq<char> {
    match id {
        Some(i) => signed_text(i as int),
        None => seq![],
    }
}

/// The text of an optional text: it, or nothing.
pub open spec fn opt_text(t: Option<String>) -> Seq<char> {
    match t {
        Some(s) => s@,
        None => seq![],
    }
}

fn id_string(id: Option<i64>) -> (s: String)
    ensures
        s@ == id_text(id),
{
    let mut out: Vec<char> = Vec::new();
    match id {
        Some(i) => {
            if i < 0 {
                out.push('-');
                let mag: u64 = (0i128 - (i as i128)) as u64;
                push_decimal(&mut out, mag);
            } else {
                push_decimal(&mut out, i as u64);
            }
        },
        None => {},
    }
    assert(out@ =~= id_text(id));
    string_of(&out)
}

fn opt_string(t: &Option<String>) -> (s: String)
    ensures
        s@ == opt_text(*t),
{
    match t {
        Some(x) => x.clone(),
        None => String::new(),
    }
}

/// The name of the first project whose id is `id`; nothing when `id` is
/// absent or no project has it.
pub open spec fn project_name_of(projects: Seq<Project>, id: Option<i64>) -> Seq<char>
    decreases projects.len(),
{
    if id is None || projects.len() == 0 {
        seq![]
    } else if projects[0].id == id {
        projects[0].name@
    } else {
        project_name_of(projects.drop_first(), id)
    }
}

fn project_name(projects: &Vec<Project>, id: Option<i64>) -> (s: String)
    ensures
        s@ == project_name_of(projects@, id),
{
    if id.is_none() {
        return String::new();
    }
    let n = projects.len();
    let ghost p = projects@;
    assert(p.skip(0) =~= p);
    let mut i: usize = 0;
    while i < n
        invariant
            n == p.len(),
            p == projects@,
            id is Some,
            i <= n,
            project_name_of(p, id) == project_name_of(p.skip(i as int), id),
        decreases n - i,
    {
        assert(p.skip(i as int)[0] == p[i as int]);
        assert(p.skip(i as int).drop_first() =~= p.skip(i + 1));
        if projects[i].id == id {
            return projects[i].name.clone();
        }
        i = i + 1;
    }
    assert(p.skip(n as int).len() == 0);
    String::new()
}

/// The header of the activity export.
pub open spec fn activity_header() -> Seq<Seq<char>> {
    seq![
        "ID"@, "Name"@, "Start Time"@, "End Time"@, "Duration"@, "Project"@, "Category"@,
        "Is Productive"@, "App Name"@, "Window Title"@, "Description"@,
    ]
}

/// `rec` is the export row of activity `a`: every field as written below; the
/// start and end times are RFC 3339 texts in the local zone (the end time
/// empty when there is none).
pub open spec fn activity_row_ok(rec: Seq<Seq<char>>, a: Activity, projects: Seq<Project>) -> bool {
    &&& rec.len() == 11
    &&& rec[0] == id_text(a.id)
    &&& rec[1] == a.name@
    &&& clock::local_rfc3339_of(a.start_time as int, rec[2])
    &&& (a.end_time matches Some(t) ==> clock::local_rfc3339_of(t as int, rec[3]))
    &&& (a.end_time is None ==> rec[3] == Seq::<char>::empty())
    &&& rec[4] == duration_text(a.duration as nat)
    &&& rec[5] == project_name_of(projects, a.project_id)
    &&& rec[6] == opt_text(a.category)
    &&& rec[7] == if a.is_productive { "Yes"@ } else { "No"@ }
    &&& rec[8] == a.app_name@
    &&& rec[9] == a.window_title@
    &&& rec[10] == opt_text(a.description)
}

fn activity_header_row() -> (r: Vec<String>)
    ensures
        record_view(r@) == activity_header(),
{
    let mut r: Vec<String> = Vec::new();
    r.push(text("ID"));
    r.push(text("Name"));
    r.push(text("Start Time"));
    r.push(text("End Time"));
    r.push(text("Duration"));
    r.push(text("Project"));
    r.push(text("Category"));
    r.push(text("Is Productive"));
    r.push(text("App Name"));
    r.push(text("Window Title"));
    r.push(text("Description"));
    assert(record_view(r@) =~= activity_header());
    r
}

/// The export row of an activity.
pub fn activity_row(a: &Activity, projects: &Vec<Project>) -> (r: Vec<String>)
    ensures
        activity_row_ok(record_view(r@), *a, projects@),
{
    let mut r: Vec<String> = Vec::new();
    r.push(id_string(a.id));
    r.push(a.name.clone());
    r.push(clock::local_rfc3339(a.start_time));
    r.push(match a.end_time {
        Some(t) => clock::local_rfc3339(t),
        None => String::new(),
    });
    r.push(format_duration(a.duration));
    r.push(project_name(projects, a.project_id));
    r.push(opt_string(&a.category));
    r.push(if a.is_productive { text("Yes") } else { text("No") });
    r.push(a.app_name.clone());
    r.push(a.window_title.clone());
    r.push(opt_string(&a.description));
    r
}

/// CSV of the activities: the header, then one row per activity in order. Writing
/// equal-length records into memory cannot fail, so this always succeeds, with
/// the CSV encoding of exactly those records.
pub fn export_activities_to_csv(activities: &Vec<Activity>, projects: &Vec<Project>) -> (r: Result<Vec<u8>, AppError>)
    ensures
        r matches Ok(bytes) ==> exists|recs: Seq<Seq<Seq<char>>>| {
            &&& bytes@ == csv_encoding(recs)
            &&& recs.len() == activities@.len() + 1
            &&& recs[0] == activity_header()
            &&& forall|k: int| 0 <= k < activities@.len() ==> activity_row_ok(#[trigger] recs[k + 1], activities@[k], projects@)
        },
        r is Ok,
{
    let mut w = csvio::csv_buffer();
    let header = activity_header_row();
    match csvio::csv_write_record(&mut w, &header) {
        Ok(()) => {},
        Err(e) => {
            return Err(AppError::Csv(e));
        },
    }
    let n = activities.len();
    let mut i: usize = 0;
    while i < n
        invariant
            n == activities@.len(),
            i <= n,
            csvio::csv_records(w).len() == i + 1,
            csvio::csv_records(w)[0] == activity_header(),
            !csvio::csv_failed(w),
            forall|k: int| 0 <= k < i ==> activity_row_ok(#[trigger] csvio::csv_records(w)[k + 1], activities@[k], projects@),
        decreases n - i,
    {
        let row = activity_row(&activities[i], projects);
        match csvio::csv_write_record(&mut w, &row) {
            Ok(()) => {},
            Err(e) => {
                return Err(AppError::Csv(e));
            },
        }
        proof {
            let recs = csvio::csv_records(w);
            assert forall|k: int| 0 <= k < i + 1 implies activity_row_ok(#[trigger] recs[k + 1], activities@[k], projects@) by {
                if k == i {
                    assert(recs[k + 1] == record_view(row@));
                }
            }
        }
        i = i + 1;
    }
    match csvio::csv_into_inner(w) {
        Ok(bytes) => Ok(bytes),
        Err(e) => Err(AppError::Csv(e)),
    }
}

/// The name of a session status as its `Debug` form writes it.
pub open spec fn status_text(s: PomodoroStatus) -> Seq<char> {
    match s {
        PomodoroStatus::Work => "Work"@,
        PomodoroStatus::ShortBreak => "ShortBreak"@,
        PomodoroStatus::LongBreak => "LongBreak"@,
        PomodoroStatus::Completed => "Completed"@,
        PomodoroStatus::Interrupted => "Interrupted"@,
    }
}

pub fn status_string(s: PomodoroStatus) -> (r: String)
    ensures
        r@ == status_text(s),
{
    match s {
        PomodoroStatus::Work => text("Work"),
        PomodoroStatus::ShortBreak => text("ShortBreak"),
        PomodoroStatus::LongBreak => text("LongBreak"),
        PomodoroStatus::Completed => text("Completed"),
        PomodoroStatus::Interrupted => text("Interrupted"),
    }
}

/// The header of the session export.
pub open spec fn pomodoro_header() -> Seq<Seq<char>> {
    seq!["ID"@, "Start Time"@, "End Time"@, "Duration"@, "Status"@, "Project"@, "Notes"@]
}

/// `rec` is the export row of session `s`; the start and end times are RFC
/// 3339 texts in the local zone (the end time empty when there is none).
pub open spec fn pomodoro_row_ok(rec: Seq<Seq<char>>, s: PomodoroSession, projects: Seq<Project>) -> bool {
    &&& rec.len() == 7
    &&& rec[0] == id_text(s.id)
    &&& clock::local_rfc3339_of(s.start_time as int, rec[1])
    &&& (s.end_time matches Some(t) ==> clock::local_rfc3339_of(t as int, rec[2]))
    &&& (s.end_time is None ==> rec[2] == Seq::<char>::empty())
    &&& rec[3] == duration_text(s.duration as nat)
    &&& rec[4] == status_text(s.status)
    &&& rec[5] == project_name_of(projects, s.project_id)
    &&& rec[6] == opt_text(s.notes)
}

fn pomodoro_header_row() -> (r: Vec<String>)
    ensures
        record_view(r@) == pomodoro_header(),
{
    let mut r: Vec<String> = Vec::new();
    r.push(text("ID"));
    r.push(text("Start Time"));
    r.push(text("End Time"));
    r.push(text("Duration"));
    r.push(text("Status"));
    r.push(text("Project"));
    r.push(text("Notes"));
    assert(record_view(r@) =~= pomodoro_header());
    r
}

/// The export row of a session.
pub fn pomodoro_row(s: &PomodoroSession, projects: &Vec<Project>) -> (r: Vec<String>)
    ensures
        pomodoro_row_ok(record_view(r@), *s, projects@),
{
    let mut r: Vec<String> = Vec::new();
    r.push(id_string(s.id));
    r.push(clock::local_rfc3339(s.start_time));
    r.push(match s.end_time {
        Some(t) => clock::local_rfc3339(t),
        None => String::new(),
    });
    r.push(format_duration(s.duration));
    r.push(status_string(s.status));
    r.push(project_name(projects, s.project_id));
    r.push(opt_string(&s.notes));
    r
}

/// CSV of the sessions: the header, then one row per session in order. Writing
/// equal-length records into memory cannot fail, so this always succeeds, with
/// the CSV encoding of exactly those records.
pub fn export_pomodoros_to_csv(sessions: &Vec<PomodoroSession>, projects: &Vec<Project>) -> (r: Result<Vec<u8>, AppError>)
    ensures
        r matches Ok(bytes) ==> exists|recs: Seq<Seq<Seq<char>>>| {
            &&& bytes@ == csv_encoding(recs)
            &&& recs.len() == sessions@.len() + 1
            &&& recs[0] == pomodoro_header()
            &&& forall|k: int| 0 <= k < sessions@.len() ==> pomodoro_row_ok(#[trigger] recs[k + 1], sessions@[k], projects@)
        },
        r is Ok,
{
    let mut w = csvio::csv_buffer();
    let header = pomodoro_header_row();
    match csvio::csv_write_record(&mut w, &header) {
        Ok(()) => {},
        Err(e) => {
            return Err(AppError::Csv(e));
        },
    }
    let n = sessions.len();
    let mut i: usize = 0;
    while i < n
        invariant
            n == sessions@.len(),
            i <= n,
            csvio::csv_records(w).len() == i + 1,
            csvio::csv_records(w)[0] == pomodoro_header(),
            !csvio::csv_failed(w),
            forall|k: int| 0 <= k < i ==> pomodoro_row_ok(#[trigger] csvio::csv_records(w)[k + 1], sessions@[k], projects@),
        decreases n - i,
    {
        let row = pomodoro_row(&sessions[i], projects);
        match csvio::csv_write_record(&mut w, &row) {
            Ok(()) => {},
            Err(e) => {
                return Err(AppError::Csv(e));
            },
        }
        proof {
            let recs = csvio::csv_records(w);
            assert forall|k: int| 0 <= k < i + 1 implies pomodoro_row_ok(#[trigger] recs[k + 1], sessions@[k], projects@) by {
                if k == i {
                    assert(recs[k + 1] == record_view(row@));
                }
            }
        }
        i = i + 1;
    }
    match csvio::csv_into_inner(w) {
        Ok(bytes) => Ok(bytes),
        Err(e) => Err(AppError::Csv(e)),
    }
}

} // verus!
