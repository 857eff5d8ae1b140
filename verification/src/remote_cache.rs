//! The local cache of files downloaded from remote stores: which remote
//! path is held in which local file, and eviction of the least recently used
//! files when the cache grows past its size.
use vstd::prelude::*;

use crate::source::{path_exists, path_join};
use crate::strings::{split_char, split_spec, str_eq, u128_to_decimal, views};
use crate::time::{dt_before, utc_now, UtcDateTime};

verus! {

/// A cached file: the remote path, the local file, its size in bytes and
/// when it was last used.
#[derive(Debug, Clone)]
pub struct CacheEntry {
    pub remote_path: String,
    pub local_path: String,
    pub size: u64,
    pub last_accessed: UtcDateTime,
}

/// A cache entry as values.
pub type EntryView = (Seq<char>, Seq<char>, u64, UtcDateTime);

/// The values of a cache entry.
pub open spec fn entry_view(e: CacheEntry) -> EntryView {
    (e.remote_path@, e.local_path@, e.size, e.last_accessed)
}

/// The values of cache entries.
pub open spec fn entries_view(es: Seq<CacheEntry>) -> Seq<EntryView> {
    es.map_values(|e: CacheEntry| entry_view(e))
}

/// Whether `a` was last used no later than `b`.
pub open spec fn used_no_later(a: EntryView, b: EntryView) -> bool {
    !dt_before(b.3, a.3)
}

/// The total size of entries.
pub open spec fn total_size(s: Seq<EntryView>) -> nat
    decreases s.len(),
{
    if s.len() == 0 {
        0
    } else {
        total_size(s.drop_last()) + s.last().2 as nat
    }
}

/// The entries with `x` put in place of the entry of its remote path, or
/// added at the end where there is none.
pub open spec fn upsert_entry(s: Seq<EntryView>, x: EntryView) -> Seq<EntryView>
    decreases s.len(),
{
    if s.len() == 0 {
        seq![x]
    } else if s[0].0 == x.0 {
        s.update(0, x)
    } else {
        seq![s[0]] + upsert_entry(s.drop_first(), x)
    }
}

/// The entry of a remote path, if any.
pub open spec fn find_entry(s: Seq<EntryView>, k: Seq<char>) -> Option<EntryView>
    decreases s.len(),
{
    if s.len() == 0 {
        None
    } else if s[0].0 == k {
        Some(s[0])
    } else {
        find_entry(s.drop_first(), k)
    }
}

/// No two entries are for the same remote path.
pub open spec fn keys_unique(s: Seq<EntryView>) -> bool {
    forall|i: int, j: int| 0 <= i < j < s.len() ==> s[i].0 != s[j].0
}

/// Removing an entry lowers the total by its size.
pub proof fn lemma_total_remove(s: Seq<EntryView>, i: int)
    requires
        0 <= i < s.len(),
    ensures
        total_size(s.remove(i)) + s[i].2 == total_size(s),
    decreases s.len(),
{
    if i < s.len() - 1 {
        assert(s.remove(i).drop_last() =~= s.drop_last().remove(i));
        assert(s.remove(i).last() == s.last());
        lemma_total_remove(s.drop_last(), i);
    } else {
        assert(s.remove(i) =~= s.drop_last());
    }
}

/// Setting an entry adds at most its size to the total.
pub proof fn lemma_total_upsert(s: Seq<EntryView>, x: EntryView)
    ensures
        total_size(upsert_entry(s, x)) <= total_size(s) + x.2,
    decreases s.len(),
{
    if s.len() > 0 {
        lemma_total_first(s);
        if s[0].0 == x.0 {
            let u = s.update(0, x);
            lemma_total_first(u);
            assert(u[0] == x);
            assert(u.drop_first() =~= s.drop_first());
        } else {
            lemma_total_upsert(s.drop_first(), x);
            let u = seq![s[0]] + upsert_entry(s.drop_first(), x);
            lemma_total_first(u);
            assert(u[0] == s[0]);
            assert(u.drop_first() =~= upsert_entry(s.drop_first(), x));
        }
    } else {
        lemma_total_first(seq![x]);
        assert(seq![x].drop_first().len() == 0);
        assert(total_size(seq![x].drop_first()) == 0);
    }
}

/// The total is the first entry's size and the rest's total.
pub proof fn lemma_total_first(s: Seq<EntryView>)
    requires
        s.len() > 0,
    ensures
        total_size(s) == s[0].2 + total_size(s.drop_first()),
    decreases s.len(),
{
    if s.len() > 1 {
        lemma_total_first(s.drop_last());
        assert(s.drop_last().drop_first() =~= s.drop_first().drop_last());
        assert(s.drop_first().last() == s.last());
        assert(s.drop_last()[0] == s[0]);
    } else {
        assert(s.drop_first().len() == 0);
        assert(s.drop_last().len() == 0);
        assert(total_size(s.drop_first()) == 0);
        assert(total_size(s.drop_last()) == 0);
        assert(s.last() == s[0]);
    }
}

/// The entry found for a remote path is the one with that path.
pub proof fn lemma_find_entry(s: Seq<EntryView>, k: Seq<char>)
    requires
        keys_unique(s),
    ensures
        find_entry(s, k) matches Some(e) ==> exists|i: int| 0 <= i < s.len() && s[i] == e && e.0 == k,
        find_entry(s, k) is None ==> forall|i: int| 0 <= i < s.len() ==> s[i].0 != k,
        forall|i: int| 0 <= i < s.len() && s[i].0 == k ==> find_entry(s, k) == Some(s[i]),
    decreases s.len(),
{
    if s.len() > 0 {
        let t = s.drop_first();
        assert(keys_unique(t)) by {
            assert forall|i: int, j: int| 0 <= i < j < t.len() implies t[i].0 != t[j].0 by {
                assert(t[i] == s[i + 1] && t[j] == s[j + 1]);
            }
        }
        lemma_find_entry(t, k);
        if s[0].0 != k {
            if find_entry(s, k) is Some {
                let e = find_entry(s, k)->0;
                let i = choose|i: int| 0 <= i < t.len() && t[i] == e && e.0 == k;
                assert(s[i + 1] == e);
            }
            assert forall|i: int| 0 <= i < s.len() && s[i].0 == k implies find_entry(s, k) == Some(
                s[i],
            ) by {
                assert(i > 0);
                assert(t[i - 1] == s[i]);
            }
        } else {
            assert forall|i: int| 0 <= i < s.len() && s[i].0 == k implies find_entry(s, k) == Some(
                s[i],
            ) by {
                if i > 0 {
                    assert(s[0].0 != s[i].0);
                }
            }
        }
    }
}

/// Setting an entry keeps the remote paths unique and makes the entry the
/// one found for its path; entries of other paths are found as before.
pub proof fn lemma_upsert_entry(s: Seq<EntryView>, x: EntryView)
    requires
        keys_unique(s),
    ensures
        keys_unique(upsert_entry(s, x)),
        find_entry(upsert_entry(s, x), x.0) == Some(x),
        forall|k: Seq<char>| k != x.0 ==> find_entry(upsert_entry(s, x), k) == find_entry(s, k),
        forall|i: int|
            0 <= i < upsert_entry(s, x).len() ==> (#[trigger] upsert_entry(s, x)[i] == x || exists|j: int|
                0 <= j < s.len() && s[j] == upsert_entry(s, x)[i]),
    decreases s.len(),
{
    if s.len() > 0 {
        let t = s.drop_first();
        assert(keys_unique(t)) by {
            assert forall|i: int, j: int| 0 <= i < j < t.len() implies t[i].0 != t[j].0 by {
                assert(t[i] == s[i + 1] && t[j] == s[j + 1]);
            }
        }
        if s[0].0 == x.0 {
            let u = s.update(0, x);
            assert forall|i: int, j: int| 0 <= i < j < u.len() implies u[i].0 != u[j].0 by {
                if i > 0 {
                    assert(u[i] == s[i]);
                }
                assert(u[j] == s[j]);
            }
            assert forall|i: int| 0 <= i < u.len() implies (#[trigger] u[i] == x || exists|j: int|
                0 <= j < s.len() && s[j] == u[i]) by {
                if i > 0 {
                    assert(s[i] == u[i]);
                }
            }
            assert(u.drop_first() =~= t);
            assert forall|k: Seq<char>| k != x.0 implies find_entry(u, k) == find_entry(s, k) by {
                assert(u[0].0 == x.0);
            }
        } else {
            lemma_upsert_entry(t, x);
            let ut = upsert_entry(t, x);
            let u = seq![s[0]] + ut;
            lemma_find_entry(t, s[0].0);
            assert forall|i: int, j: int| 0 <= i < j < u.len() implies u[i].0 != u[j].0 by {
                if i == 0 {
                    assert(u[j] == ut[j - 1]);
                    if ut[j - 1] != x {
                        let m = choose|m: int| 0 <= m < t.len() && t[m] == ut[j - 1];
                        assert(s[m + 1] == t[m]);
                    }
                } else {
                    assert(u[i] == ut[i - 1] && u[j] == ut[j - 1]);
                }
            }
            assert forall|i: int| 0 <= i < u.len() implies (#[trigger] u[i] == x || exists|j: int|
                0 <= j < s.len() && s[j] == u[i]) by {
                if i == 0 {
                    assert(s[0] == u[0]);
                } else {
                    assert(u[i] == ut[i - 1]);
                    if ut[i - 1] != x {
                        let m = choose|m: int| 0 <= m < t.len() && t[m] == ut[i - 1];
                        assert(s[m + 1] == u[i]);
                    }
                }
            }
            assert(u.drop_first() =~= ut);
            assert forall|k: Seq<char>| k != x.0 implies find_entry(u, k) == find_entry(s, k) by {
                assert(u[0] == s[0]);
                if s[0].0 != k {
                    assert(find_entry(u, k) == find_entry(ut, k));
                    assert(find_entry(ut, k) == find_entry(t, k));
                }
            }
        }
    } else {
        assert(seq![x].drop_first().len() == 0);
        assert forall|k: Seq<char>| k != x.0 implies find_entry(seq![x], k) == find_entry(s, k) by {
            assert(find_entry(seq![x].drop_first(), k) is None);
        }
    }
}

/// With one entry per path, replacing the entry at `i` by one of the same
/// path keeps the paths unique, is what setting it does, and changes what is
/// found for that path alone.
pub proof fn lemma_replace_entry(s: Seq<EntryView>, i: int, x: EntryView)
    requires
        keys_unique(s),
        0 <= i < s.len(),
        s[i].0 == x.0,
    ensures
        keys_unique(s.update(i, x)),
        upsert_entry(s, x) == s.update(i, x),
        find_entry(s.update(i, x), x.0) == Some(x),
        forall|k: Seq<char>| k != x.0 ==> find_entry(s.update(i, x), k) == find_entry(s, k),
{
    let u = s.update(i, x);
    assert forall|a: int, b: int| 0 <= a < b < u.len() implies u[a].0 != u[b].0 by {
        assert(u[a].0 == s[a].0 && u[b].0 == s[b].0);
    }
    lemma_upsert_entry(s, x);
    lemma_find_entry(u, x.0);
    lemma_find_entry(upsert_entry(s, x), x.0);
    lemma_find_entry(s, x.0);
    lemma_upsert_at_index(s, x, i);
    assert forall|k: Seq<char>| k != x.0 implies find_entry(u, k) == find_entry(s, k) by {
        lemma_find_entry(u, k);
        lemma_find_entry(s, k);
        if find_entry(s, k) is Some {
            let j = choose|j: int| 0 <= j < s.len() && s[j] == find_entry(s, k)->0 && (find_entry(s, k)->0).0 == k;
            assert(u[j] == s[j]);
        } else if find_entry(u, k) is Some {
            let j = choose|j: int| 0 <= j < u.len() && u[j] == find_entry(u, k)->0 && (find_entry(u, k)->0).0 == k;
            assert(u[j] == s[j]);
        }
    }
}

/// Setting an entry whose path is at `i` replaces the entry at `i`.
proof fn lemma_upsert_at_index(s: Seq<EntryView>, x: EntryView, i: int)
    requires
        keys_unique(s),
        0 <= i < s.len(),
        s[i].0 == x.0,
    ensures
        upsert_entry(s, x) == s.update(i, x),
    decreases s.len(),
{
    if i > 0 {
        assert(s[0].0 != s[i].0);
        let t = s.drop_first();
        assert(keys_unique(t)) by {
            assert forall|a: int, b: int| 0 <= a < b < t.len() implies t[a].0 != t[b].0 by {
                assert(t[a] == s[a + 1] && t[b] == s[b + 1]);
            }
        }
        assert(t[i - 1] == s[i]);
        lemma_upsert_at_index(t, x, i - 1);
        assert(seq![s[0]] + t.update(i - 1, x) =~= s.update(i, x));
    }
}

/// Setting an entry of a path that no entry has adds it at the end.
pub proof fn lemma_append_entry(s: Seq<EntryView>, x: EntryView)
    requires
        forall|j: int| 0 <= j < s.len() ==> s[j].0 != x.0,
    ensures
        upsert_entry(s, x) == s.push(x),
    decreases s.len(),
{
    if s.len() > 0 {
        lemma_append_entry(s.drop_first(), x);
        assert(seq![s[0]] + s.drop_first().push(x) =~= s.push(x));
    }
}

/// Removing an entry keeps the paths unique and forgets that path alone.
pub proof fn lemma_remove_entry(s: Seq<EntryView>, i: int)
    requires
        keys_unique(s),
        0 <= i < s.len(),
    ensures
        keys_unique(s.remove(i)),
        find_entry(s.remove(i), s[i].0) is None,
        forall|k: Seq<char>| k != s[i].0 ==> find_entry(s.remove(i), k) == find_entry(s, k),
{
    let u = s.remove(i);
    assert forall|a: int, b: int| 0 <= a < b < u.len() implies u[a].0 != u[b].0 by {
        let a2 = if a < i { a } else { a + 1 };
        let b2 = if b < i { b } else { b + 1 };
        assert(u[a] == s[a2] && u[b] == s[b2]);
    }
    lemma_find_entry(u, s[i].0);
    assert forall|j: int| 0 <= j < u.len() implies u[j].0 != s[i].0 by {
        let j2 = if j < i { j } else { j + 1 };
        assert(u[j] == s[j2]);
    }
    assert forall|k: Seq<char>| k != s[i].0 implies find_entry(u, k) == find_entry(s, k) by {
        lemma_find_entry(u, k);
        lemma_find_entry(s, k);
        if find_entry(s, k) is Some {
            let j = choose|j: int| 0 <= j < s.len() && s[j] == find_entry(s, k)->0 && (find_entry(s, k)->0).0 == k;
            assert(j != i);
            let j2 = if j < i { j } else { j - 1 };
            assert(u[j2] == s[j]);
        } else if find_entry(u, k) is Some {
            let j = choose|j: int| 0 <= j < u.len() && u[j] == find_entry(u, k)->0 && (find_entry(u, k)->0).0 == k;
            let j2 = if j < i { j } else { j + 1 };
            assert(u[j] == s[j2]);
        }
    }
}

/// A prefix of the entries totals no more than all of them.
pub proof fn lemma_total_prefix(s: Seq<EntryView>, i: int)
    requires
        0 <= i <= s.len(),
    ensures
        total_size(s.take(i)) <= total_size(s),
    decreases s.len() - i,
{
    if i < s.len() {
        lemma_total_prefix(s, i + 1);
        assert(s.take(i + 1).drop_last() =~= s.take(i));
    } else {
        assert(s.take(i) =~= s);
    }
}

/// Replacing an entry by one of the same size keeps the total.
pub proof fn lemma_total_update_same_size(s: Seq<EntryView>, i: int, x: EntryView)
    requires
        0 <= i < s.len(),
        x.2 == s[i].2,
    ensures
        total_size(s.update(i, x)) == total_size(s),
{
    lemma_total_remove(s, i);
    lemma_total_remove(s.update(i, x), i);
    assert(s.update(i, x).remove(i) =~= s.remove(i));
}

/// An empty list of entries totals nothing; a list with a positive total is
/// not empty.
pub proof fn lemma_total_empty(s: Seq<EntryView>)
    ensures
        s.len() == 0 ==> total_size(s) == 0,
{
}

/// The state of an eviction: the entries left and those evicted so far,
/// out of `up`. Paths stay unique, sizes add up, every entry is in one or
/// the other, evicted entries were used no later than those left, and they
/// were evicted in order of use.
pub open spec fn evict_state(up: Seq<EntryView>, cur: Seq<EntryView>, ev: Seq<EntryView>) -> bool {
    &&& keys_unique(cur)
    &&& total_size(cur) + total_size(ev) == total_size(up)
    &&& forall|i: int| 0 <= i < cur.len() ==> exists|j: int| 0 <= j < up.len() && up[j] == #[trigger] cur[i]
    &&& forall|i: int| 0 <= i < ev.len() ==> exists|j: int| 0 <= j < up.len() && up[j] == #[trigger] ev[i]
    &&& forall|j: int|
        0 <= j < up.len() ==> (exists|i: int| 0 <= i < cur.len() && cur[i] == #[trigger] up[j]) || (exists|i: int|
            0 <= i < ev.len() && ev[i] == up[j])
    &&& forall|a: int, c: int|
        0 <= a < ev.len() && 0 <= c < cur.len() ==> used_no_later(#[trigger] ev[a], #[trigger] cur[c])
    &&& forall|a: int, b: int| 0 <= a < b < ev.len() ==> used_no_later(#[trigger] ev[a], #[trigger] ev[b])
}

/// Evicting an entry keeps every entry in `up`, and every entry of `up` among
/// those left or those evicted.
#[verifier::spinoff_prover]
proof fn lemma_evict_step_members(up: Seq<EntryView>, before: Seq<EntryView>, old_ev: Seq<EntryView>, i: int)
    requires
        forall|k: int| 0 <= k < before.len() ==> exists|j: int| 0 <= j < up.len() && up[j] == #[trigger] before[k],
        forall|k: int| 0 <= k < old_ev.len() ==> exists|j: int| 0 <= j < up.len() && up[j] == #[trigger] old_ev[k],
        forall|j: int|
            0 <= j < up.len() ==> (exists|k: int| 0 <= k < before.len() && before[k] == #[trigger] up[j]) || (exists|k: int|
                0 <= k < old_ev.len() && old_ev[k] == up[j]),
        0 <= i < before.len(),
    ensures
        ({
            let cur = before.remove(i);
            let ev = old_ev.push(before[i]);
            &&& forall|k: int| 0 <= k < cur.len() ==> exists|j: int| 0 <= j < up.len() && up[j] == #[trigger] cur[k]
            &&& forall|k: int| 0 <= k < ev.len() ==> exists|j: int| 0 <= j < up.len() && up[j] == #[trigger] ev[k]
            &&& forall|j: int|
                0 <= j < up.len() ==> (exists|k: int| 0 <= k < cur.len() && cur[k] == #[trigger] up[j]) || (exists|k: int|
                    0 <= k < ev.len() && ev[k] == up[j])
        }),
{
    let cur = before.remove(i);
    let ev = old_ev.push(before[i]);
    let e = before[i];
    assert forall|k: int| 0 <= k < cur.len() implies exists|j: int| 0 <= j < up.len() && up[j] == #[trigger] cur[k] by {
        let k2 = if k < i { k } else { k + 1 };
        assert(cur[k] == before[k2]);
    }
    assert forall|k: int| 0 <= k < ev.len() implies exists|j: int| 0 <= j < up.len() && up[j] == #[trigger] ev[k] by {
        if k < old_ev.len() {
            assert(ev[k] == old_ev[k]);
        } else {
            assert(ev[k] == before[i]);
        }
    }
    assert forall|j: int| 0 <= j < up.len() implies (exists|k: int| 0 <= k < cur.len() && cur[k] == #[trigger] up[j])
        || (exists|k: int| 0 <= k < ev.len() && ev[k] == up[j]) by {
        if exists|k: int| 0 <= k < before.len() && before[k] == up[j] {
            let k = choose|k: int| 0 <= k < before.len() && before[k] == up[j];
            if k < i {
                assert(cur[k] == before[k]);
            } else if k > i {
                assert(cur[k - 1] == before[k]);
            } else {
                assert(ev[old_ev.len() as int] == e);
            }
        } else {
            let k = choose|k: int| 0 <= k < old_ev.len() && old_ev[k] == up[j];
            assert(ev[k] == old_ev[k]);
        }
    }
}

/// Evicting an entry used no later than any other keeps the evicted
/// entries no later than those left, and in order of use.
#[verifier::spinoff_prover]
proof fn lemma_evict_step_order(up: Seq<EntryView>, before: Seq<EntryView>, old_ev: Seq<EntryView>, i: int)
    requires
        forall|a: int, c: int|
            0 <= a < old_ev.len() && 0 <= c < before.len() ==> used_no_later(#[trigger] old_ev[a], #[trigger] before[c]),
        forall|a: int, b: int| 0 <= a < b < old_ev.len() ==> used_no_later(#[trigger] old_ev[a], #[trigger] old_ev[b]),
        0 <= i < before.len(),
        forall|j: int| 0 <= j < before.len() ==> used_no_later(before[i], before[j]),
    ensures
        ({
            let cur = before.remove(i);
            let ev = old_ev.push(before[i]);
            &&& forall|a: int, c: int|
                0 <= a < ev.len() && 0 <= c < cur.len() ==> used_no_later(#[trigger] ev[a], #[trigger] cur[c])
            &&& forall|a: int, b: int| 0 <= a < b < ev.len() ==> used_no_later(#[trigger] ev[a], #[trigger] ev[b])
        }),
{
    let cur = before.remove(i);
    let ev = old_ev.push(before[i]);
    assert forall|a: int, c: int| 0 <= a < ev.len() && 0 <= c < cur.len() implies used_no_later(
        #[trigger] ev[a],
        #[trigger] cur[c],
    ) by {
        let c2 = if c < i { c } else { c + 1 };
        assert(cur[c] == before[c2]);
        if a < old_ev.len() {
            assert(ev[a] == old_ev[a]);
        }
    }
    assert forall|a: int, b: int| 0 <= a < b < ev.len() implies used_no_later(#[trigger] ev[a], #[trigger] ev[b]) by {
        assert(ev[a] == old_ev[a]);
        if b < old_ev.len() {
            assert(ev[b] == old_ev[b]);
        } else {
            assert(ev[b] == before[i]);
        }
    }
}

/// Evicting an entry used no later than any other keeps the eviction state.
pub proof fn lemma_evict_step(up: Seq<EntryView>, before: Seq<EntryView>, old_ev: Seq<EntryView>, i: int)
    requires
        evict_state(up, before, old_ev),
        0 <= i < before.len(),
        forall|j: int| 0 <= j < before.len() ==> used_no_later(before[i], before[j]),
    ensures
        evict_state(up, before.remove(i), old_ev.push(before[i])),
{
    let ev = old_ev.push(before[i]);
    lemma_remove_entry(before, i);
    lemma_total_remove(before, i);
    assert(total_size(ev) == total_size(old_ev) + before[i].2) by {
        assert(ev.drop_last() =~= old_ev);
    }
    lemma_evict_step_members(up, before, old_ev, i);
    lemma_evict_step_order(up, before, old_ev, i);
}

/// After an eviction down to `target`, a new entry `x` used after every
/// older entry, and no larger than `target`, is still there.
pub proof fn lemma_new_entry_stays(
    old_entries: Seq<EntryView>,
    x: EntryView,
    up: Seq<EntryView>,
    fin: Seq<EntryView>,
    ev: Seq<EntryView>,
    target: nat,
)
    requires
        keys_unique(up),
        find_entry(up, x.0) == Some(x),
        forall|i: int|
            0 <= i < up.len() ==> (#[trigger] up[i] == x || exists|j: int| 0 <= j < old_entries.len() && old_entries[j] == up[i]),
        evict_state(up, fin, ev),
        ev.len() > 0 ==> total_size(fin) + ev.last().2 > target,
    ensures
        (forall|j: int| 0 <= j < old_entries.len() ==> dt_before((#[trigger] old_entries[j]).3, x.3)) && x.2
            <= target ==> find_entry(fin, x.0) == Some(x),
{
    if (forall|j: int| 0 <= j < old_entries.len() ==> dt_before((#[trigger] old_entries[j]).3, x.3)) && x.2
        <= target {
        if find_entry(fin, x.0) != Some(x) {
            lemma_find_entry(up, x.0);
            lemma_find_entry(fin, x.0);
            let jx = choose|i: int| 0 <= i < up.len() && up[i] == x && x.0 == x.0;
            assert forall|k: int| 0 <= k < fin.len() implies fin[k] != x by {
                if fin[k] == x {
                    assert(fin[k].0 == x.0);
                }
            }
            assert(!(exists|k: int| 0 <= k < fin.len() && fin[k] == up[jx]));
            let p = choose|k: int| 0 <= k < ev.len() && ev[k] == up[jx];
            assert(fin.len() == 0) by {
                if fin.len() > 0 {
                    assert(used_no_later(ev[p], fin[0]));
                    let j0 = choose|j: int| 0 <= j < up.len() && up[j] == fin[0];
                    if up[j0] != x {
                        let m = choose|m: int| 0 <= m < old_entries.len() && old_entries[m] == up[j0];
                        assert(dt_before(old_entries[m].3, x.3));
                    }
                }
            }
            lemma_total_empty(fin);
            let last = ev.len() - 1;
            if ev[last] != x {
                let jl = choose|j: int| 0 <= j < up.len() && up[j] == ev[last];
                let m = choose|m: int| 0 <= m < old_entries.len() && old_entries[m] == up[jl];
                assert(dt_before(old_entries[m].3, x.3));
                assert(p != last);
                assert(used_no_later(ev[p], ev[last]));
            }
        }
    }
}

/// Calls `SystemTime::now().duration_since(UNIX_EPOCH)` and reads it in
/// nanoseconds; a clock set before the epoch reads as zero.
#[verifier::external_body]
fn epoch_nanos() -> (r: u128) {
    match std::time::SystemTime::now().duration_since(std::time::UNIX_EPOCH) {
        Ok(d) => d.as_nanos(),
        Err(_) => 0,
    }
}

/// A cache of downloaded remote files, in a local directory, up to a size.
pub struct RemoteCache {
    cache_dir: String,
    max_size_bytes: u64,
    entries: Vec<CacheEntry>,
}

impl RemoteCache {
    /// The cached entries.
    pub closed spec fn entries(&self) -> Seq<EntryView> {
        entries_view(self.entries@)
    }

    /// The size the cache may reach before it evicts.
    pub closed spec fn max_size(&self) -> u64 {
        self.max_size_bytes
    }

    /// The directory of the cached files.
    pub closed spec fn dir(&self) -> Seq<char> {
        self.cache_dir@
    }

    /// The cache's invariant: one entry per remote path, and sizes whose
    /// total fits in 64 bits.
    pub closed spec fn wf(&self) -> bool {
        keys_unique(self.entries()) && total_size(self.entries()) <= u64::MAX
    }

    /// An empty cache in `cache_dir`, or else in `ofs-remote-cache` under
    /// the system's temporary directory `temp_dir`, holding up to
    /// `max_size_mb` mebibytes.
    pub fn new(cache_dir: Option<String>, max_size_mb: u64, temp_dir: &str) -> (r: Self)
        requires
            max_size_mb * 1024 * 1024 <= u64::MAX,
        ensures
            r.wf(),
            r.entries().len() == 0,
            r.max_size() == max_size_mb * 1024 * 1024,
            r.dir() == match cache_dir {
                Some(d) => d@,
                None => crate::source::path_join_spec(temp_dir@, "ofs-remote-cache"@),
            },
    {
        let dir = match cache_dir {
            Some(d) => d,
            None => path_join(temp_dir, "ofs-remote-cache"),
        };
        RemoteCache { cache_dir: dir, max_size_bytes: max_size_mb * 1024 * 1024, entries: Vec::new() }
    }

    /// The index of the entry of a remote path.
    fn find_index(&self, remote_path: &str) -> (r: Option<usize>)
        requires
            self.wf(),
        ensures
            match r {
                Some(i) => i < self.entries().len() && self.entries()[i as int].0 == remote_path@
                    && find_entry(self.entries(), remote_path@) == Some(self.entries()[i as int]),
                None => find_entry(self.entries(), remote_path@) is None && forall|j: int|
                    0 <= j < self.entries().len() ==> self.entries()[j].0 != remote_path@,
            },
    {
        let n = self.entries.len();
        let mut i: usize = 0;
        while i < n
            invariant
                n == self.entries@.len(),
                i <= n,
                self.wf(),
                forall|j: int| 0 <= j < i ==> self.entries()[j].0 != remote_path@,
            decreases n - i,
        {
            if str_eq(self.entries[i].remote_path.as_str(), remote_path) {
                proof {
                    lemma_find_entry(self.entries(), remote_path@);
                }
                return Some(i);
            }
            i = i + 1;
        }
        proof {
            lemma_find_entry(self.entries(), remote_path@);
        }
        None
    }

    /// The total size of the cached files.
    fn total_bytes(&self) -> (r: u64)
        requires
            total_size(self.entries()) <= u64::MAX,
        ensures
            r == total_size(self.entries()),
    {
        let n = self.entries.len();
        let mut sum: u64 = 0;
        let mut i: usize = 0;
        while i < n
            invariant
                n == self.entries@.len(),
                i <= n,
                total_size(self.entries()) <= u64::MAX,
                sum == total_size(self.entries().take(i as int)),
            decreases n - i,
        {
            proof {
                lemma_total_prefix(self.entries(), i + 1);
                assert(self.entries().take(i + 1).drop_last() =~= self.entries().take(i as int));
            }
            sum = sum + self.entries[i].size;
            i = i + 1;
        }
        proof {
            assert(self.entries().take(n as int) =~= self.entries());
        }
        sum
    }

    /// The index of an entry used no later than any other.
    fn oldest_index(&self) -> (r: usize)
        requires
            self.entries@.len() > 0,
        ensures
            r < self.entries@.len(),
            forall|j: int| 0 <= j < self.entries().len() ==> used_no_later(self.entries()[r as int], self.entries()[j]),
    {
        let n = self.entries.len();
        let mut best: usize = 0;
        let mut i: usize = 1;
        while i < n
            invariant
                n == self.entries@.len(),
                1 <= i <= n,
                best < i,
                forall|j: int| 0 <= j < i ==> used_no_later(self.entries()[best as int], self.entries()[j]),
            decreases n - i,
        {
            if self.entries[i].last_accessed.is_before(&self.entries[best].last_accessed) {
                best = i;
            }
            i = i + 1;
        }
        best
    }

    /// Looks up a remote path, given whether its file is still on disk and
    /// the current time: a file still there is handed out and marked used
    /// now; an entry whose file is gone is forgotten.
    pub fn get_at(&mut self, remote_path: &str, present: bool, now: UtcDateTime) -> (r: Option<String>)
        requires
            old(self).wf(),
        ensures
            final(self).wf(),
            final(self).max_size() == old(self).max_size(),
            final(self).dir() == old(self).dir(),
            forall|k: Seq<char>| k != remote_path@ ==> find_entry(final(self).entries(), k) == find_entry(
                old(self).entries(),
                k,
            ),
            match find_entry(old(self).entries(), remote_path@) {
                None => r is None && final(self).entries() == old(self).entries(),
                Some(e) => if present {
                    r matches Some(p) && p@ == e.1 && find_entry(final(self).entries(), remote_path@) == Some(
                        (e.0, e.1, e.2, now),
                    )
                } else {
                    r is None && find_entry(final(self).entries(), remote_path@) is None
                },
            },
    {
        match self.find_index(remote_path) {
            None => None,
            Some(i) => {
                let ghost before = self.entries();
                if present {
                    let e = &self.entries[i];
                    let updated = CacheEntry {
                        remote_path: e.remote_path.clone(),
                        local_path: e.local_path.clone(),
                        size: e.size,
                        last_accessed: now,
                    };
                    let p = e.local_path.clone();
                    self.entries.set(i, updated);
                    proof {
                        let x = (before[i as int].0, before[i as int].1, before[i as int].2, now);
                        assert(self.entries() =~= before.update(i as int, x));
                        lemma_replace_entry(before, i as int, x);
                        lemma_total_update_same_size(before, i as int, x);
                    }
                    Some(p)
                } else {
                    self.entries.remove(i);
                    proof {
                        assert(self.entries() =~= before.remove(i as int));
                        lemma_remove_entry(before, i as int);
                        lemma_total_remove(before, i as int);
                    }
                    None
                }
            },
        }
    }

    /// Looks up a remote path: a cached file still on disk is handed out and
    /// marked used now; an entry whose file is gone is forgotten.
    pub fn get(&mut self, remote_path: &str) -> (r: Option<String>)
        requires
            old(self).wf(),
        ensures
            final(self).wf(),
            final(self).max_size() == old(self).max_size(),
            final(self).dir() == old(self).dir(),
            forall|k: Seq<char>| k != remote_path@ ==> find_entry(final(self).entries(), k) == find_entry(
                old(self).entries(),
                k,
            ),
            r matches Some(p) ==> (find_entry(old(self).entries(), remote_path@) matches Some(e) && p@ == e.1),
            find_entry(old(self).entries(), remote_path@) is None ==> r is None && final(self).entries()
                == old(self).entries(),
            r is None ==> find_entry(final(self).entries(), remote_path@) is None,
    {
        match self.find_index(remote_path) {
            None => None,
            Some(i) => {
                let present = path_exists(self.entries[i].local_path.as_str());
                let now = utc_now();
                self.get_at(remote_path, present, now)
            },
        }
    }

    /// Records `local_path` as the file of `remote_path`, of `size` bytes,
    /// used at `now`, and hands back the local path with the local paths of
    /// the entries evicted. When the total size then exceeds the maximum,
    /// the least recently used entries are evicted, one at a time, until the
    /// total is at most half the maximum. A new entry used after every other,
    /// and no larger than half the maximum, stays.
    #[verifier::rlimit(60)]
    #[verifier::spinoff_prover]
    pub fn insert_at(&mut self, remote_path: &str, local_path: String, size: u64, now: UtcDateTime) -> (r: (
        String,
        Vec<String>,
    ))
        requires
            old(self).wf(),
            total_size(old(self).entries()) + size <= u64::MAX,
        ensures
            final(self).wf(),
            final(self).max_size() == old(self).max_size(),
            final(self).dir() == old(self).dir(),
            r.0@ == local_path@,
            ({
                let x = (remote_path@, local_path@, size, now);
                let up = upsert_entry(old(self).entries(), x);
                &&& total_size(up) <= old(self).max_size() ==> final(self).entries() == up && r.1@.len() == 0
                &&& total_size(up) > old(self).max_size() ==> {
                    &&& total_size(final(self).entries()) <= old(self).max_size() / 2
                    &&& forall|i: int|
                        0 <= i < final(self).entries().len() ==> exists|j: int|
                            0 <= j < up.len() && up[j] == #[trigger] final(self).entries()[i]
                    &&& exists|ev: Seq<EntryView>|
                        #![trigger ev.len()]
                        {
                            &&& ev.len() == r.1@.len() && ev.len() > 0
                            &&& forall|i: int| 0 <= i < ev.len() ==> (#[trigger] ev[i]).1 == r.1@[i]@
                            &&& forall|i: int| 0 <= i < ev.len() ==> exists|j: int| 0 <= j < up.len() && up[j] == #[trigger] ev[i]
                            &&& total_size(final(self).entries()) + total_size(ev) == total_size(up)
                            &&& forall|a: int, c: int|
                                0 <= a < ev.len() && 0 <= c < final(self).entries().len() ==> used_no_later(
                                    #[trigger] ev[a],
                                    #[trigger] final(self).entries()[c],
                                )
                            &&& total_size(final(self).entries()) + ev.last().2 > old(self).max_size() / 2
                        }
                }
                &&& (forall|j: int|
                    0 <= j < old(self).entries().len() ==> dt_before(
                        (#[trigger] old(self).entries()[j]).3,
                        now,
                    )) && size <= old(self).max_size() / 2 ==> find_entry(final(self).entries(), remote_path@)
                    == Some(x)
            }),
    {
        let ghost x = (remote_path@, local_path@, size, now);
        let ghost old_entries = self.entries();
        let ret_local = local_path.clone();
        let entry = CacheEntry {
            remote_path: String::from_str(remote_path),
            local_path,
            size,
            last_accessed: now,
        };
        match self.find_index(remote_path) {
            Some(i) => {
                self.entries.set(i, entry);
                proof {
                    assert(self.entries() =~= old_entries.update(i as int, x));
                    lemma_replace_entry(old_entries, i as int, x);
                }
            },
            None => {
                self.entries.push(entry);
                proof {
                    assert(self.entries() =~= old_entries.push(x));
                    lemma_append_entry(old_entries, x);
                    lemma_upsert_entry(old_entries, x);
                }
            },
        }
        let ghost up = self.entries();
        proof {
            lemma_upsert_entry(old_entries, x);
            lemma_total_upsert(old_entries, x);
            lemma_find_entry(up, x.0);
        }
        let total = self.total_bytes();
        let mut evicted: Vec<String> = Vec::new();
        if total > self.max_size_bytes {
            let target = self.max_size_bytes / 2;
            let mut cur_total = total;
            let ghost mut ev: Seq<EntryView> = Seq::empty();
            proof {
                assert forall|j: int| 0 <= j < up.len() implies (exists|i: int|
                    0 <= i < up.len() && up[i] == #[trigger] up[j]) || (exists|i: int|
                    0 <= i < ev.len() && ev[i] == up[j]) by {
                    assert(up[j] == up[j]);
                }
                assert(total_size(ev) == 0);
            }
            while cur_total > target
                invariant
                    evict_state(up, self.entries(), ev),
                    total_size(up) <= u64::MAX,
                    cur_total == total_size(self.entries()),
                    target == self.max_size_bytes / 2,
                    self.max_size_bytes == old(self).max_size(),
                    self.cache_dir@ == old(self).dir(),
                    ev.len() == evicted@.len(),
                    forall|i: int| 0 <= i < ev.len() ==> (#[trigger] ev[i]).1 == evicted@[i]@,
                    ev.len() > 0 ==> total_size(self.entries()) + ev.last().2 > target,
                decreases self.entries@.len(),
            {
                proof {
                    lemma_total_empty(self.entries());
                }
                let i = self.oldest_index();
                let ghost before = self.entries();
                let ghost e = before[i as int];
                let removed = self.entries.remove(i);
                proof {
                    assert(self.entries() =~= before.remove(i as int));
                    lemma_total_remove(before, i as int);
                    lemma_evict_step(up, before, ev, i as int);
                }
                cur_total = cur_total - removed.size;
                let ghost old_ev = ev;
                evicted.push(removed.local_path);
                proof {
                    ev = ev.push(e);
                }
            }
            proof {
                lemma_new_entry_stays(old_entries, x, up, self.entries(), ev, target as nat);
                assert(ev.len() == evicted@.len() && ev.len() > 0);
            }
        }
        (ret_local, evicted)
    }

    /// Records `local_path` as the file of `remote_path`, of `size` bytes,
    /// used now, evicting the least recently used entries when the cache
    /// grows past its size; hands back the local path and the local paths of
    /// the evicted entries. The evicted files are left on disk.
    pub fn insert(&mut self, remote_path: &str, local_path: String, size: u64) -> (r: (String, Vec<String>))
        requires
            old(self).wf(),
            total_size(old(self).entries()) + size <= u64::MAX,
        ensures
            final(self).wf(),
            final(self).max_size() == old(self).max_size(),
            final(self).dir() == old(self).dir(),
            r.0@ == local_path@,
            total_size(final(self).entries()) <= old(self).max_size() || r.1@.len() == 0,
    {
        let now = utc_now();
        self.insert_at(remote_path, local_path, size, now)
    }

    /// Forgets every cached file; the files are left on disk.
    pub fn clear(&mut self)
        ensures
            final(self).entries().len() == 0,
            final(self).wf(),
            final(self).max_size() == old(self).max_size(),
            final(self).dir() == old(self).dir(),
    {
        self.entries = Vec::new();
    }

    /// A fresh local path for a download of `remote_path`: in the cache
    /// directory, the time in nanoseconds since the epoch, a `-`, and the
    /// last segment of the remote path.
    pub fn temp_path_for_at(&self, remote_path: &str, epoch_nanos: u128) -> (r: String)
        ensures
            r@ == crate::source::path_join_spec(
                self.dir(),
                crate::strings::decimal(epoch_nanos as nat) + "-"@ + split_spec(remote_path@, '/').last(),
            ),
    {
        let parts = split_char(remote_path, '/');
        proof {
            crate::strings::lemma_split_nonempty(remote_path@, '/');
            assert(views(parts@).last() == parts@[parts@.len() - 1]@);
        }
        let mut name = u128_to_decimal(epoch_nanos);
        name.append("-");
        name.append(parts[parts.len() - 1].as_str());
        path_join(self.cache_dir.as_str(), name.as_str())
    }

    /// A fresh local path for a download of `remote_path`, named after the
    /// current time and the remote file's name.
    pub fn temp_path_for(&self, remote_path: &str) -> (r: String)
        ensures
            exists|t: u128| r@ == crate::source::path_join_spec(
                self.dir(),
                crate::strings::decimal(t as nat) + "-"@ + split_spec(remote_path@, '/').last(),
            ),
    {
        let t = epoch_nanos();
        self.temp_path_for_at(remote_path, t)
    }

    /// The directory of the cached files.
    pub fn cache_dir(&self) -> (r: &str)
        ensures
            r@ == self.dir(),
    {
        self.cache_dir.as_str()
    }
}

} // verus!
