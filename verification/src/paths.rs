use vstd::prelude::*;

verus! {

/// The user's data directory from `dirs::data_dir`, as text
/// (`Path::to_string_lossy`). It depends on the platform and the environment,
/// so nothing is promised of it.
#[verifier::external_body]
pub(crate) fn user_data_dir() -> (d: Option<String>) {
    dirs::data_dir().map(|p| p.to_string_lossy().into_owned())
}

/// The user's configuration directory from `dirs::config_dir`, as text
/// (`Path::to_string_lossy`). It depends on the platform and the environment,
/// so nothing is promised of it.
#[verifier::external_body]
pub(crate) fn user_config_dir() -> (d: Option<String>) {
    dirs::config_dir().map(|p| p.to_string_lossy().into_owned())
}

/// The user's preference directory from `dirs::preference_dir`, as text
/// (`Path::to_string_lossy`). It depends on the platform and the environment,
/// so nothing is promised of it.
#[verifier::external_body]
pub(crate) fn user_preference_dir() -> (d: Option<String>) {
    dirs::preference_dir().map(|p| p.to_string_lossy().into_owned())
}

/// No character of `s` is a path separator (`/`, `\\`) or the drive colon.
pub open spec fn separator_free(s: Seq<char>) -> bool {
    forall|i: int| 0 <= i < s.len() ==> #[trigger] s[i] != '/' && s[i] != '\\' && s[i] != ':'
}

/// A single relative path component: not empty, not `.` or `..`, and free of
/// separators and of the drive colon.
pub open spec fn plain_name(s: Seq<char>) -> bool {
    &&& s.len() > 0
    &&& s != seq!['.']
    &&& s != seq!['.', '.']
    &&& separator_free(s)
}

/// `p` is `base` with `child` adjoined: right after it (where `base` is empty
/// or already ends in a separator), or after a separator of the platform.
pub open spec fn joined_path(base: Seq<char>, child: Seq<char>, p: Seq<char>) -> bool {
    ||| p == base + child
    ||| p == base + seq!['/'] + child
    ||| p == base + seq!['\\'] + child
}

/// Text joined from separator-free pieces is separator-free.
pub proof fn lemma_separator_free_concat(a: Seq<char>, b: Seq<char>)
    requires
        separator_free(a),
        separator_free(b),
    ensures
        separator_free(a + b),
{
    assert forall|i: int| 0 <= i < (a + b).len() implies #[trigger] (a + b)[i] != '/' && (a + b)[i] != '\\' && (a + b)[i] != ':' by {
        if i < a.len() {
            assert((a + b)[i] == a[i]);
        } else {
            assert((a + b)[i] == b[i - a.len()]);
        }
    }
}

/// The folder under a user directory that holds this application's files:
/// `timetracker` where the user directories follow the XDG layout (Linux),
/// `TimeTracker` elsewhere (Windows, macOS).
pub open spec fn app_folder(xdg: bool) -> Seq<char> {
    if xdg {
        "timetracker"@
    } else {
        "TimeTracker"@
    }
}

/// The application folder's name for the layout.
pub fn app_folder_name(xdg: bool) -> (s: &'static str)
    ensures
        s@ == app_folder(xdg),
{
    if xdg {
        "timetracker"
    } else {
        "TimeTracker"
    }
}

/// Whether the user directories that `dirs` reported follow the XDG layout.
/// Under XDG (Linux) `dirs` gives the configuration directory itself as the
/// preference directory; on macOS (`Library/Preferences` against
/// `Library/Application Support`) and on Windows (the local against the
/// roaming application data) the two differ.
pub fn xdg_layout(config: &Option<String>, preference: &Option<String>) -> (b: bool)
    ensures
        b == (config matches Some(c) && preference matches Some(p) && c@ == p@),
{
    match config {
        Some(c) => match preference {
            Some(p) => c.eq(p),
            None => false,
        },
        None => false,
    }
}

/// The layout of this machine's user directories, from what `dirs` reports.
pub(crate) fn host_layout_is_xdg() -> (b: bool) {
    let config = user_config_dir();
    let preference = user_preference_dir();
    xdg_layout(&config, &preference)
}

/// The names this crate adjoins to directories are single components.
pub proof fn lemma_plain_names()
    ensures
        plain_name("time_tracker"@),
        plain_name("logs"@),
        plain_name("config.json"@),
        plain_name("data"@),
        plain_name(app_folder(true)),
        plain_name(app_folder(false)),
{
    reveal_strlit("time_tracker");
    reveal_strlit("logs");
    reveal_strlit("config.json");
    reveal_strlit("data");
    reveal_strlit("timetracker");
    reveal_strlit("TimeTracker");
    assert("time_tracker"@ =~= seq!['t', 'i', 'm', 'e', '_', 't', 'r', 'a', 'c', 'k', 'e', 'r']);
    assert("logs"@ =~= seq!['l', 'o', 'g', 's']);
    assert("config.json"@ =~= seq!['c', 'o', 'n', 'f', 'i', 'g', '.', 'j', 's', 'o', 'n']);
    assert("data"@ =~= seq!['d', 'a', 't', 'a']);
    assert("timetracker"@ =~= seq!['t', 'i', 'm', 'e', 't', 'r', 'a', 'c', 'k', 'e', 'r']);
    assert("TimeTracker"@ =~= seq!['T', 'i', 'm', 'e', 'T', 'r', 'a', 'c', 'k', 'e', 'r']);
}

/// `std::path::Path::join` of `child` onto `base`, as text. Its
/// documentation: the result is `base` with `child` adjoined, a relative path
/// extending it. For a single component (see `plain_name`) that is `base`
/// followed by the component, with the platform's separator between them
/// unless `base` is empty or already ends in one. Nothing is promised of other
/// children.
#[verifier::external_body]
pub(crate) fn join_path(base: &str, child: &str) -> (p: String)
    ensures
        plain_name(child@) ==> joined_path(base@, child@, p@),
{
    std::path::Path::new(base).join(child).to_string_lossy().into_owned()
}

} // verus!
