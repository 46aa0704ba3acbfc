use vstd::prelude::*;
use crate::clock;
use crate::error::{text, AppError};
use crate::text::{chars_of, push_str, string_of};

verus! {

/// Where backups go, whether they are made automatically, how often
/// (milliseconds) and how many are kept.
#[derive(Debug, Clone)]
pub struct BackupConfig {
    pub backup_dir: String,
    pub auto_backup: bool,
    pub backup_interval: u64,
    pub max_backups: usize,
}

impl Default for BackupConfig {
    /// Daily automatic backups into `backups`, ten kept.
    fn default() -> (c: BackupConfig)
        ensures
            c.backup_dir@ == "backups"@,
            c.auto_backup,
            c.backup_interval == 24 * 60 * 60 * 1000,
            c.max_backups == 10,
    {
        BackupConfig { backup_dir: text("backups"), auto_backup: true, backup_interval: 24 * 60 * 60 * 1000, max_backups: 10 }
    }
}

/// Whether the periodic task is due at `now`: it is switched on, and either it
/// never ran or at least `interval` milliseconds passed since it last ran.
pub open spec fn periodic_due(enabled: bool, last: Option<i64>, now: i64, interval: u64) -> bool {
    enabled && match last {
        None => true,
        Some(t) => now - t >= interval,
    }
}

/// Decides whether a periodic task (backup, export) runs now. A last run
/// later than `now` cannot be measured and is an error.
pub fn run_due(enabled: bool, last: Option<i64>, now: i64, interval: u64) -> (r: Result<bool, AppError>)
    ensures
        !enabled ==> r matches Ok(false),
        enabled && (last matches Some(t) && t > now) ==> (r matches Err(AppError::InvalidOperation(_))),
        enabled && !(last matches Some(t) && t > now) ==> (r matches Ok(b) && b == periodic_due(
            enabled,
            last,
            now,
            interval,
        )),
{
    if !enabled {
        return Ok(false);
    }
    match last {
        None => Ok(true),
        Some(t) => {
            if t > now {
                Err(AppError::InvalidOperation(text("last run lies in the future")))
            } else {
                Ok(clock::elapsed_ms(t, now) >= interval)
            }
        },
    }
}

/// The file name of a backup made at `now`: `backup_<local time as
/// %Y%m%d_%H%M%S>.zip`.
pub fn backup_file_name(now: i64) -> (name: String)
    ensures
        exists|stamp: Seq<char>| name@ == "backup_"@ + stamp + ".zip"@ && #[trigger] clock::local_text_of(now as int, "%Y%m%d_%H%M%S"@, stamp),
{
    let stamp = clock::local_format(now, "%Y%m%d_%H%M%S");
    let mut out: Vec<char> = Vec::new();
    push_str(&mut out, "backup_");
    push_str(&mut out, stamp.as_str());
    push_str(&mut out, ".zip");
    assert(out@ =~= "backup_"@ + stamp@ + ".zip"@);
    string_of(&out)
}

/// Position of the last `.` in a file name, if any.
pub open spec fn last_dot(name: Seq<char>) -> Option<int>
    decreases name.len(),
{
    if name.len() == 0 {
        None
    } else if name.last() == '.' {
        Some(name.len() - 1)
    } else {
        last_dot(name.drop_last())
    }
}

/// The extension of a file name as `Path::extension` gives it: what follows
/// the last `.`, unless that dot starts the name or there is none.
pub open spec fn extension(name: Seq<char>) -> Option<Seq<char>> {
    match last_dot(name) {
        Some(d) => if d > 0 { Some(name.subrange(d + 1, name.len() as int)) } else { None },
        None => None,
    }
}

pub proof fn lemma_last_dot_bounds(name: Seq<char>)
    ensures
        last_dot(name) matches Some(d) ==> 0 <= d < name.len() && name[d] == '.',
    decreases name.len(),
{
    if name.len() > 0 && name.last() != '.' {
        lemma_last_dot_bounds(name.drop_last());
    }
}

fn find_last_dot(cs: &Vec<char>) -> (r: Option<usize>)
    ensures
        r matches Some(d) ==> last_dot(cs@) == Some(d as int),
        r is None ==> last_dot(cs@) is None,
{
    let mut i = cs.len();
    assert(cs@.take(i as int) =~= cs@);
    while i > 0
        invariant
            i <= cs@.len(),
            last_dot(cs@) == last_dot(cs@.take(i as int)),
        decreases i,
    {
        proof {
            assert(cs@.take(i as int).drop_last() =~= cs@.take(i - 1));
            assert(cs@.take(i as int).last() == cs@[i - 1]);
        }
        if cs[i - 1] == '.' {
            return Some(i - 1);
        }
        i = i - 1;
    }
    assert(cs@.take(0).len() == 0);
    None
}

/// Whether a file name has the extension `ext` (as `Path::extension` reads it).
pub fn has_extension(name: &String, ext: &str) -> (b: bool)
    ensures
        b == (extension(name@) == Some(ext@)),
{
    let cs = chars_of(name.as_str());
    let es = chars_of(ext);
    proof {
        lemma_last_dot_bounds(cs@);
    }
    match find_last_dot(&cs) {
        Some(d) => {
            if d == 0 {
                return false;
            }
            let n = cs.len();
            let m = es.len();
            if n - d - 1 != m {
                assert(cs@.subrange(d + 1, n as int).len() != es@.len());
                return false;
            }
            let mut k: usize = 0;
            while k < m
                invariant
                    n == cs@.len(),
                    m == es@.len(),
                    cs@ == name@,
                    es@ == ext@,
                    last_dot(cs@) == Some(d as int),
                    0 < d < n,
                    n - d - 1 == m,
                    k <= m,
                    forall|j: int| 0 <= j < k ==> cs@[d + 1 + j] == es@[j],
                decreases m - k,
            {
                if cs[d + 1 + k] != es[k] {
                    assert(cs@.subrange(d + 1, n as int)[k as int] != es@[k as int]);
                    assert(cs@.subrange(d + 1, n as int) != es@);
                    return false;
                }
                k = k + 1;
            }
            assert(cs@.subrange(d + 1, n as int) =~= es@);
            true
        },
        None => false,
    }
}

/// Whether a file name has the extension `zip`.
pub fn is_zip_name(name: &String) -> (b: bool)
    ensures
        b == (extension(name@) == Some("zip"@)),
{
    has_extension(name, "zip")
}

/// Texts in order: compared character by character by code point, a proper
/// prefix first (the order of file names within one directory).
pub open spec fn text_le(a: Seq<char>, b: Seq<char>) -> bool
    decreases a.len(),
{
    if a.len() == 0 {
        true
    } else if b.len() == 0 {
        false
    } else if a[0] != b[0] {
        (a[0] as int) < (b[0] as int)
    } else {
        text_le(a.drop_first(), b.drop_first())
    }
}

pub proof fn lemma_text_le_total(a: Seq<char>, b: Seq<char>)
    ensures
        text_le(a, b) || text_le(b, a),
    decreases a.len(),
{
    if a.len() > 0 && b.len() > 0 {
        if a[0] == b[0] {
            lemma_text_le_total(a.drop_first(), b.drop_first());
        } else {
            assert((a[0] as int) != (b[0] as int));
        }
    }
}

pub proof fn lemma_text_le_trans(a: Seq<char>, b: Seq<char>, c: Seq<char>)
    requires
        text_le(a, b),
        text_le(b, c),
    ensures
        text_le(a, c),
    decreases a.len(),
{
    if a.len() > 0 && b.len() > 0 && c.len() > 0 && a[0] == b[0] && b[0] == c[0] {
        lemma_text_le_trans(a.drop_first(), b.drop_first(), c.drop_first());
    }
}

/// Each name comes no later than every name after it.
pub open spec fn names_sorted(s: Seq<String>) -> bool {
    forall|i: int, j: int| 0 <= i < j < s.len() ==> text_le(#[trigger] s[i]@, #[trigger] s[j]@)
}

fn text_le_exec(a: &String, b: &String) -> (r: bool)
    ensures
        r == text_le(a@, b@),
{
    let x = chars_of(a.as_str());
    let y = chars_of(b.as_str());
    let n = x.len();
    let m = y.len();
    let mut i: usize = 0;
    assert(x@.skip(0) =~= x@);
    assert(y@.skip(0) =~= y@);
    while i < n && i < m && x[i] == y[i]
        invariant
            n == x@.len(),
            m == y@.len(),
            i <= n,
            i <= m,
            text_le(x@, y@) == text_le(x@.skip(i as int), y@.skip(i as int)),
        decreases n - i,
    {
        assert(x@.skip(i as int).drop_first() =~= x@.skip(i + 1));
        assert(y@.skip(i as int).drop_first() =~= y@.skip(i + 1));
        assert(x@.skip(i as int)[0] == x@[i as int]);
        assert(y@.skip(i as int)[0] == y@[i as int]);
        i = i + 1;
    }
    if i == n {
        assert(x@.skip(i as int).len() == 0);
        true
    } else if i == m {
        assert(y@.skip(i as int).len() == 0);
        false
    } else {
        assert(x@.skip(i as int)[0] == x@[i as int]);
        assert(y@.skip(i as int)[0] == y@[i as int]);
        x[i] < y[i]
    }
}

fn insert_sorted(out: &mut Vec<String>, name: String)
    requires
        names_sorted(old(out)@),
    ensures
        names_sorted(final(out)@),
        final(out)@.to_multiset() == old(out)@.to_multiset().insert(name),
{
    let n = out.len();
    let mut p: usize = 0;
    while p < n && text_le_exec(&out[p], &name)
        invariant
            n == out@.len(),
            p <= n,
            forall|k: int| 0 <= k < p ==> text_le(#[trigger] out@[k]@, name@),
        decreases n - p,
    {
        p = p + 1;
    }
    let ghost s = out@;
    proof {
        if p < n {
            lemma_text_le_total(s[p as int]@, name@);
            assert forall|k: int| p <= k < n implies text_le(name@, #[trigger] s[k]@) by {
                if k > p {
                    lemma_text_le_trans(name@, s[p as int]@, s[k]@);
                }
            }
        }
        vstd::seq_lib::to_multiset_insert(s, p as int, name);
    }
    out.insert(p, name);
}

/// The backup archives among the file names of the backup directory (those
/// with the extension `zip`), in name order (oldest first, the names
/// carrying their time).
pub fn select_backups(names: &Vec<String>) -> (r: Vec<String>)
    ensures
        names_sorted(r@),
        r@.to_multiset() == names@.filter(|n: String| extension(n@) == Some("zip"@)).to_multiset(),
{
    let ghost keep = |n: String| extension(n@) == Some("zip"@);
    let mut out: Vec<String> = Vec::new();
    let n = names.len();
    let mut i: usize = 0;
    proof {
        assert(names@.take(0).filter(keep) =~= Seq::<String>::empty());
    }
    while i < n
        invariant
            n == names@.len(),
            i <= n,
            keep == (|n: String| extension(n@) == Some("zip"@)),
            names_sorted(out@),
            out@.to_multiset() == names@.take(i as int).filter(keep).to_multiset(),
        decreases n - i,
    {
        proof {
            assert(names@.take(i + 1).drop_last() =~= names@.take(i as int));
            assert(names@.take(i + 1).last() == names@[i as int]);
        }
        if is_zip_name(&names[i]) {
            let nm = names[i].clone();
            insert_sorted(&mut out, nm);
            proof {
                reveal_with_fuel(Seq::<_>::filter, 1);
                assert(names@.take(i + 1).filter(keep) == names@.take(i as int).filter(keep).push(names@[i as int]));
                vstd::seq_lib::to_multiset_build(names@.take(i as int).filter(keep), names@[i as int]);
            }
        } else {
            proof {
                reveal_with_fuel(Seq::<_>::filter, 1);
                assert(names@.take(i + 1).filter(keep) == names@.take(i as int).filter(keep));
            }
        }
        i = i + 1;
    }
    assert(names@.take(n as int) =~= names@);
    out
}

/// The backups to delete so that only the newest `max_backups` remain: the
/// oldest ones, from the front of the name-ordered list.
pub fn backups_to_remove(sorted: &Vec<String>, max_backups: usize) -> (r: Vec<String>)
    ensures
        sorted@.len() <= max_backups ==> r@.len() == 0,
        sorted@.len() > max_backups ==> r@ == sorted@.take(sorted@.len() - max_backups),
{
    let mut out: Vec<String> = Vec::new();
    let n = sorted.len();
    if n <= max_backups {
        return out;
    }
    let count = n - max_backups;
    let mut i: usize = 0;
    while i < count
        invariant
            n == sorted@.len(),
            count <= n,
            i <= count,
            out@ =~= sorted@.take(i as int),
        decreases count - i,
    {
        out.push(sorted[i].clone());
        i = i + 1;
    }
    out
}

/// Cleaning up keeps the newest backups: after removing what
/// `backups_to_remove` lists, exactly the last `max_backups` names remain.
pub proof fn law_cleanup_keeps_newest(sorted: Seq<String>, max_backups: nat)
    requires
        sorted.len() > max_backups,
    ensures
        sorted.take(sorted.len() - max_backups) + sorted.skip(sorted.len() - max_backups) == sorted,
        sorted.skip(sorted.len() - max_backups).len() == max_backups,
{
    assert(sorted.take(sorted.len() - max_backups) + sorted.skip(sorted.len() - max_backups) =~= sorted);
}

} // verus!
