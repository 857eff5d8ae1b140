//! Lists of (key, value) string pairs, looked up by their first matching key.
use vstd::prelude::*;

use crate::strings::str_eq;

verus! {

/// The value of the first entry with key `k`, if any.
pub open spec fn lookup<V>(entries: Seq<(Seq<char>, V)>, k: Seq<char>) -> Option<V>
    decreases entries.len(),
{
    if entries.len() == 0 {
        None
    } else if entries[0].0 == k {
        Some(entries[0].1)
    } else {
        lookup(entries.drop_first(), k)
    }
}

/// The view of a list of (key, value) string pairs.
pub open spec fn pairs_view(t: Seq<(String, String)>) -> Seq<(Seq<char>, Seq<char>)> {
    t.map_values(|e: (String, String)| (e.0@, e.1@))
}

/// The entries of `m` with the entry of key `k` set to `v`: replaced in place
/// where there is one, added at the end otherwise.
pub open spec fn upsert<V>(m: Seq<(Seq<char>, V)>, k: Seq<char>, v: V) -> Seq<(Seq<char>, V)>
    decreases m.len(),
{
    if m.len() == 0 {
        seq![(k, v)]
    } else if m[0].0 == k {
        m.update(0, (k, v))
    } else {
        seq![m[0]] + upsert(m.drop_first(), k, v)
    }
}

/// Whether no key occurs twice among the entries.
pub open spec fn distinct_keys<V>(entries: Seq<(Seq<char>, V)>) -> bool {
    forall|i: int, j: int|
        0 <= i < entries.len() && 0 <= j < entries.len() && i != j ==> (#[trigger] entries[i]).0
            != (#[trigger] entries[j]).0
}

/// Setting a key whose first entry is at `i` replaces that entry.
pub proof fn lemma_upsert_at<V>(m: Seq<(Seq<char>, V)>, k: Seq<char>, v: V, i: int)
    requires
        0 <= i < m.len(),
        m[i].0 == k,
        forall|j: int| 0 <= j < i ==> m[j].0 != k,
    ensures
        upsert(m, k, v) == m.update(i, (k, v)),
    decreases m.len(),
{
    if i > 0 {
        lemma_upsert_at(m.drop_first(), k, v, i - 1);
        assert(seq![m[0]] + m.drop_first().update(i - 1, (k, v)) =~= m.update(i, (k, v)));
    }
}

/// Setting a key that no entry has adds an entry at the end.
pub proof fn lemma_upsert_absent<V>(m: Seq<(Seq<char>, V)>, k: Seq<char>, v: V)
    requires
        forall|j: int| 0 <= j < m.len() ==> m[j].0 != k,
    ensures
        upsert(m, k, v) == m.push((k, v)),
    decreases m.len(),
{
    if m.len() > 0 {
        lemma_upsert_absent(m.drop_first(), k, v);
        assert(seq![m[0]] + m.drop_first().push((k, v)) =~= m.push((k, v)));
    }
}

/// Setting a key keeps the keys distinct, finds the new value under the key,
/// and leaves every other key as it was.
pub proof fn lemma_upsert_distinct<V>(m: Seq<(Seq<char>, V)>, k: Seq<char>, v: V)
    requires
        distinct_keys(m),
    ensures
        distinct_keys(upsert(m, k, v)),
        lookup(upsert(m, k, v), k) == Some(v),
        forall|q: Seq<char>| q != k ==> lookup(upsert(m, k, v), q) == lookup(m, q),
    decreases m.len(),
{
    if m.len() == 0 {
        let u = seq![(k, v)];
        assert(u.len() == 1 && u[0] == (k, v));
        assert forall|q: Seq<char>| q != k implies lookup(u, q) == lookup(m, q) by {
            assert(u.drop_first() =~= Seq::<(Seq<char>, V)>::empty());
            assert(lookup(u.drop_first(), q) is None);
        }
    } else if m[0].0 == k {
        let u = m.update(0, (k, v));
        assert(u.drop_first() =~= m.drop_first());
        assert forall|q: Seq<char>| q != k implies lookup(u, q) == lookup(m, q) by {
            assert(u[0].0 == k);
        }
        assert(distinct_keys(u)) by {
            assert forall|i: int, j: int| 0 <= i < u.len() && 0 <= j < u.len() && i != j implies (#[trigger] u[i]).0
                != (#[trigger] u[j]).0 by {
                assert(m[i].0 == u[i].0 && m[j].0 == u[j].0);
            }
        }
    } else {
        let t = m.drop_first();
        assert(distinct_keys(t)) by {
            assert forall|i: int, j: int| 0 <= i < t.len() && 0 <= j < t.len() && i != j implies (#[trigger] t[i]).0
                != (#[trigger] t[j]).0 by {
                assert(m[i + 1] == t[i] && m[j + 1] == t[j]);
            }
        }
        lemma_upsert_distinct(t, k, v);
        lemma_upsert_members(t, k, v);
        let r = upsert(t, k, v);
        let u = seq![m[0]] + r;
        assert(u.drop_first() =~= r);
        assert(u[0] == m[0]);
        assert forall|q: Seq<char>| q != k implies lookup(u, q) == lookup(m, q) by {
            assert(lookup(r, q) == lookup(t, q));
        }
        assert(distinct_keys(u)) by {
            assert forall|i: int, j: int| 0 <= i < u.len() && 0 <= j < u.len() && i != j implies (#[trigger] u[i]).0
                != (#[trigger] u[j]).0 by {
                if i == 0 || j == 0 {
                    let o = if i == 0 { j } else { i };
                    assert(u[o] == r[o - 1]);
                    if r[o - 1].0 != k {
                        let w = choose|w: int| 0 <= w < t.len() && t[w].0 == r[o - 1].0;
                        assert(m[w + 1].0 == m[0].0 ==> w + 1 == 0);
                    }
                } else {
                    assert(u[i] == r[i - 1] && u[j] == r[j - 1]);
                }
            }
        }
    }
}

/// Every key after setting `k` is `k` or a key that was there before.
proof fn lemma_upsert_members<V>(m: Seq<(Seq<char>, V)>, k: Seq<char>, v: V)
    ensures
        upsert(m, k, v).len() >= 1,
        forall|i: int|
            0 <= i < upsert(m, k, v).len() ==> (#[trigger] upsert(m, k, v)[i]).0 == k || exists|w: int|
                0 <= w < m.len() && m[w].0 == upsert(m, k, v)[i].0,
    decreases m.len(),
{
    if m.len() > 0 && m[0].0 != k {
        lemma_upsert_members(m.drop_first(), k, v);
        let r = upsert(m.drop_first(), k, v);
        let u = upsert(m, k, v);
        assert forall|i: int| 0 <= i < u.len() implies (#[trigger] u[i]).0 == k || exists|w: int|
            0 <= w < m.len() && m[w].0 == u[i].0 by {
            if i == 0 {
                assert(m[0].0 == u[0].0);
            } else {
                assert(u[i] == r[i - 1]);
                if r[i - 1].0 != k {
                    let w = choose|w: int| 0 <= w < m.drop_first().len() && m.drop_first()[w].0 == r[i - 1].0;
                    assert(m[w + 1].0 == u[i].0);
                }
            }
        }
    } else if m.len() > 0 {
        let u = upsert(m, k, v);
        assert forall|i: int| 0 <= i < u.len() implies (#[trigger] u[i]).0 == k || exists|w: int|
            0 <= w < m.len() && m[w].0 == u[i].0 by {
            if i != 0 {
                assert(m[i].0 == u[i].0);
            }
        }
    }
}

/// Sets the entry of key `k` to `v`.
pub fn upsert_pair(m: &mut Vec<(String, String)>, k: &String, v: &String)
    ensures
        pairs_view(final(m)@) == upsert(pairs_view(old(m)@), k@, v@),
{
    let n = m.len();
    let mut i: usize = 0;
    let ghost pv = pairs_view(m@);
    while i < n
        invariant
            n == m@.len(),
            pv == pairs_view(m@),
            pv == pairs_view(old(m)@),
            i <= n,
            forall|j: int| 0 <= j < i ==> (#[trigger] m@[j]).0@ != k@,
        decreases n - i,
    {
        if str_eq(m[i].0.as_str(), k.as_str()) {
            m.set(i, (k.clone(), v.clone()));
            proof {
                lemma_upsert_at(pv, k@, v@, i as int);
                assert(pairs_view(m@) =~= pv.update(i as int, (k@, v@)));
            }
            return;
        }
        i = i + 1;
    }
    proof {
        lemma_upsert_absent(pv, k@, v@);
    }
    m.push((k.clone(), v.clone()));
    proof {
        assert(pairs_view(m@) =~= pv.push((k@, v@)));
    }
}

/// When some entry has key `k`, the lookup finds a value.
pub proof fn lemma_lookup_some<V>(entries: Seq<(Seq<char>, V)>, k: Seq<char>, i: int)
    requires
        0 <= i < entries.len(),
        entries[i].0 == k,
    ensures
        lookup(entries, k) is Some,
    decreases entries.len(),
{
    if entries[0].0 != k {
        lemma_lookup_some(entries.drop_first(), k, i - 1);
    }
}

/// The value of the first pair whose key is `key`.
pub fn find_value<'a>(pairs: &'a Vec<(String, String)>, key: &str) -> (r: Option<&'a String>)
    ensures
        match (r, lookup(pairs_view(pairs@), key@)) {
            (Some(v), Some(w)) => v@ == w,
            (None, None) => true,
            _ => false,
        },
{
    let n = pairs.len();
    let mut i: usize = 0;
    assert(pairs_view(pairs@).skip(0) =~= pairs_view(pairs@));
    while i < n
        invariant
            n == pairs@.len(),
            i <= n,
            lookup(pairs_view(pairs@), key@) == lookup(pairs_view(pairs@).skip(i as int), key@),
        decreases n - i,
    {
        proof {
            let sk = pairs_view(pairs@).skip(i as int);
            assert(sk.drop_first() =~= pairs_view(pairs@).skip(i + 1));
            assert(sk[0] == (pairs@[i as int].0@, pairs@[i as int].1@));
        }
        if str_eq(pairs[i].0.as_str(), key) {
            return Some(&pairs[i].1);
        }
        i = i + 1;
    }
    proof {
        assert(pairs_view(pairs@).skip(n as int).len() == 0);
    }
    None
}

/// The lookup in a list of three entries.
pub proof fn lemma_lookup3<V>(entries: Seq<(Seq<char>, V)>, k: Seq<char>)
    requires
        entries.len() == 3,
    ensures
        lookup(entries, k) == if entries[0].0 == k {
            Some(entries[0].1)
        } else if entries[1].0 == k {
            Some(entries[1].1)
        } else if entries[2].0 == k {
            Some(entries[2].1)
        } else {
            None
        },
{
    let d1 = entries.drop_first();
    let d2 = d1.drop_first();
    let d3 = d2.drop_first();
    assert(d1[0] == entries[1]);
    assert(d2[0] == entries[2]);
    assert(d3.len() == 0);
    assert(lookup(d3, k) is None);
    assert(lookup(d2, k) == if entries[2].0 == k { Some(entries[2].1) } else { None });
    assert(lookup(d1, k) == if entries[1].0 == k { Some(entries[1].1) } else { lookup(d2, k) });
}

} // verus!
