use vstd::prelude::*;
use crate::app_tracker::AppCategory;

verus! {

/// No key occurs twice.
pub open spec fn keys_unique<K>(g: Seq<(K, nat)>) -> bool {
    forall|i: int, j: int| 0 <= i < j < g.len() ==> #[trigger] g[i].0 != #[trigger] g[j].0
}

/// Some entry has key `k`.
pub open spec fn has_key<K>(g: Seq<(K, nat)>, k: K) -> bool {
    exists|i: int| 0 <= i < g.len() && #[trigger] g[i].0 == k
}

/// The position of key `k` (meaningful when it is present).
pub open spec fn key_pos<K>(g: Seq<(K, nat)>, k: K) -> int {
    choose|i: int| 0 <= i < g.len() && #[trigger] g[i].0 == k
}

/// The groups after adding `a` to key `k`: the entry of `k` grows by `a`, or
/// `(k, a)` is appended when `k` has no entry yet.
pub open spec fn tally<K>(g: Seq<(K, nat)>, k: K, a: nat) -> Seq<(K, nat)> {
    if has_key(g, k) {
        let i = key_pos(g, k);
        g.update(i, (k, g[i].1 + a))
    } else {
        g.push((k, a))
    }
}

/// The sum of all amounts.
pub open spec fn group_sum<K>(g: Seq<(K, nat)>) -> nat
    decreases g.len(),
{
    if g.len() == 0 {
        0
    } else {
        group_sum(g.drop_last()) + g.last().1
    }
}

/// `i` holds a largest amount and every later entry is smaller (the entry that
/// `Iterator::max_by_key` picks).
pub open spec fn is_last_max<K>(g: Seq<(K, nat)>, i: int) -> bool {
    &&& 0 <= i < g.len()
    &&& forall|j: int| 0 <= j < g.len() ==> #[trigger] g[j].1 <= g[i].1
    &&& forall|j: int| i < j < g.len() ==> #[trigger] g[j].1 < g[i].1
}

/// The view of groups keyed by text.
pub open spec fn text_groups(v: Seq<(String, u64)>) -> Seq<(Seq<char>, nat)> {
    v.map_values(|p: (String, u64)| (p.0@, p.1 as nat))
}

/// The view of groups keyed by application category.
pub open spec fn category_groups(v: Seq<(AppCategory, u64)>) -> Seq<(AppCategory, nat)> {
    v.map_values(|p: (AppCategory, u64)| (p.0, p.1 as nat))
}

pub proof fn lemma_entry_le_sum<K>(g: Seq<(K, nat)>, i: int)
    requires
        0 <= i < g.len(),
    ensures
        g[i].1 <= group_sum(g),
    decreases g.len(),
{
    if i < g.len() - 1 {
        lemma_entry_le_sum(g.drop_last(), i);
    }
}

pub proof fn lemma_sum_update<K>(g: Seq<(K, nat)>, i: int, e: (K, nat))
    requires
        0 <= i < g.len(),
    ensures
        group_sum(g.update(i, e)) + g[i].1 == group_sum(g) + e.1,
    decreases g.len(),
{
    if i < g.len() - 1 {
        lemma_sum_update(g.drop_last(), i, e);
        assert(g.update(i, e).drop_last() =~= g.drop_last().update(i, e));
    } else {
        assert(g.update(i, e).drop_last() =~= g.drop_last());
    }
}

pub proof fn lemma_sum_push<K>(g: Seq<(K, nat)>, e: (K, nat))
    ensures
        group_sum(g.push(e)) == group_sum(g) + e.1,
{
    assert(g.push(e).drop_last() =~= g);
}

/// Tallying adds exactly `a` to the sum and keeps keys unique.
pub proof fn lemma_tally<K>(g: Seq<(K, nat)>, k: K, a: nat)
    requires
        keys_unique(g),
    ensures
        group_sum(tally(g, k, a)) == group_sum(g) + a,
        keys_unique(tally(g, k, a)),
        has_key(tally(g, k, a), k),
        tally(g, k, a).len() == if has_key(g, k) { g.len() } else { g.len() + 1 },
{
    if has_key(g, k) {
        let i = key_pos(g, k);
        lemma_sum_update(g, i, (k, g[i].1 + a));
        assert(tally(g, k, a)[i].0 == k);
    } else {
        lemma_sum_push(g, (k, a));
        assert(tally(g, k, a)[g.len() as int].0 == k);
    }
}

/// Adds `amount` to the entry for `key`, appending `(key, amount)` when there
/// is none.
pub fn add_text(groups: &mut Vec<(String, u64)>, key: &String, amount: u64)
    requires
        keys_unique(text_groups(old(groups)@)),
        group_sum(text_groups(old(groups)@)) + amount <= u64::MAX,
    ensures
        text_groups(final(groups)@) == tally(text_groups(old(groups)@), key@, amount as nat),
        keys_unique(text_groups(final(groups)@)),
{
    let ghost g = text_groups(groups@);
    let n = groups.len();
    let mut i: usize = 0;
    while i < n
        invariant
            n == groups@.len(),
            g == text_groups(groups@),
            groups@ == old(groups)@,
            keys_unique(g),
            group_sum(g) + amount <= u64::MAX,
            i <= n,
            forall|j: int| 0 <= j < i ==> groups@[j].0@ != key@,
        decreases n - i,
    {
        if groups[i].0 == *key {
            proof {
                assert(g[i as int].0 == key@);
                assert(has_key(g, key@));
                let p = key_pos(g, key@);
                assert(0 <= p < g.len() && g[p].0 == key@);
                if p < i {
                    assert(g[p].0 != g[i as int].0);
                } else if p > i {
                    assert(g[i as int].0 != g[p].0);
                }
                assert(p == i);
                lemma_entry_le_sum(g, i as int);
            }
            let k = groups[i].0.clone();
            let cur = groups[i].1;
            groups.set(i, (k, cur + amount));
            proof {
                assert(text_groups(groups@) =~= tally(g, key@, amount as nat));
                lemma_tally(g, key@, amount as nat);
            }
            return;
        }
        i = i + 1;
    }
    proof {
        assert(!has_key(g, key@)) by {
            if has_key(g, key@) {
                let p = choose|p: int| 0 <= p < g.len() && #[trigger] g[p].0 == key@;
                assert(groups@[p].0@ == key@);
            }
        }
    }
    groups.push((key.clone(), amount));
    proof {
        assert(text_groups(groups@) =~= tally(g, key@, amount as nat));
        lemma_tally(g, key@, amount as nat);
    }
}

/// Adds `amount` to the entry for `key`, appending `(key, amount)` when there
/// is none.
pub fn add_category(groups: &mut Vec<(AppCategory, u64)>, key: AppCategory, amount: u64)
    requires
        keys_unique(category_groups(old(groups)@)),
        group_sum(category_groups(old(groups)@)) + amount <= u64::MAX,
    ensures
        category_groups(final(groups)@) == tally(category_groups(old(groups)@), key, amount as nat),
        keys_unique(category_groups(final(groups)@)),
{
    let ghost g = category_groups(groups@);
    let n = groups.len();
    let mut i: usize = 0;
    while i < n
        invariant
            n == groups@.len(),
            g == category_groups(groups@),
            groups@ == old(groups)@,
            keys_unique(g),
            group_sum(g) + amount <= u64::MAX,
            i <= n,
            forall|j: int| 0 <= j < i ==> groups@[j].0 != key,
        decreases n - i,
    {
        if groups[i].0 == key {
            proof {
                assert(g[i as int].0 == key);
                assert(has_key(g, key));
                let p = key_pos(g, key);
                assert(0 <= p < g.len() && g[p].0 == key);
                if p < i {
                    assert(g[p].0 != g[i as int].0);
                } else if p > i {
                    assert(g[i as int].0 != g[p].0);
                }
                assert(p == i);
                lemma_entry_le_sum(g, i as int);
            }
            let cur = groups[i].1;
            groups.set(i, (key, cur + amount));
            proof {
                assert(category_groups(groups@) =~= tally(g, key, amount as nat));
                lemma_tally(g, key, amount as nat);
            }
            return;
        }
        i = i + 1;
    }
    proof {
        assert(!has_key(g, key)) by {
            if has_key(g, key) {
                let p = choose|p: int| 0 <= p < g.len() && #[trigger] g[p].0 == key;
                assert(groups@[p].0 == key);
            }
        }
    }
    groups.push((key, amount));
    proof {
        assert(category_groups(groups@) =~= tally(g, key, amount as nat));
        lemma_tally(g, key, amount as nat);
    }
}

/// The position of the last entry with the largest amount, `None` when there
/// are no entries.
pub fn last_max_text(groups: &Vec<(String, u64)>) -> (r: Option<usize>)
    ensures
        groups@.len() == 0 <==> r is None,
        r matches Some(i) ==> is_last_max(text_groups(groups@), i as int),
{
    let n = groups.len();
    if n == 0 {
        return None;
    }
    let ghost g = text_groups(groups@);
    let mut best: usize = 0;
    let mut j: usize = 1;
    while j < n
        invariant
            n == groups@.len(),
            g == text_groups(groups@),
            0 <= best < j <= n,
            forall|k: int| 0 <= k < j ==> #[trigger] g[k].1 <= g[best as int].1,
            forall|k: int| best < k < j ==> #[trigger] g[k].1 < g[best as int].1,
        decreases n - j,
    {
        if groups[j].1 >= groups[best].1 {
            best = j;
        }
        j = j + 1;
    }
    Some(best)
}

/// The position of the last entry with the largest amount, `None` when there
/// are no entries.
pub fn last_max_category(groups: &Vec<(AppCategory, u64)>) -> (r: Option<usize>)
    ensures
        groups@.len() == 0 <==> r is None,
        r matches Some(i) ==> is_last_max(category_groups(groups@), i as int),
{
    let n = groups.len();
    if n == 0 {
        return None;
    }
    let ghost g = category_groups(groups@);
    let mut best: usize = 0;
    let mut j: usize = 1;
    while j < n
        invariant
            n == groups@.len(),
            g == category_groups(groups@),
            0 <= best < j <= n,
            forall|k: int| 0 <= k < j ==> #[trigger] g[k].1 <= g[best as int].1,
            forall|k: int| best < k < j ==> #[trigger] g[k].1 < g[best as int].1,
        decreases n - j,
    {
        if groups[j].1 >= groups[best].1 {
            best = j;
        }
        j = j + 1;
    }
    Some(best)
}

} // verus!
