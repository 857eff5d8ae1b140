//! Materialization: which feature views a run covers, the time window of an
//! incremental run, how rows pulled from the offline store become online
//! write records, and the batches they are written in. Pulling and writing
//! are up to the caller.
use vstd::prelude::*;

use crate::errors::OfsError;
use crate::strings::{has_prefix, starts_with, views};
use crate::time::{dt_before, Duration, UtcDateTime};
use crate::types::{max_interval_end, EntityKey, FeatureView, OnlineWriteRecord};
use crate::value_type::ValueType;

verus! {

// ---------------------------------------------------------------------------
// Feature views of a run
// ---------------------------------------------------------------------------

/// The views that a run covers: those named, in the registry's order, or
/// all of them when no names are given.
pub open spec fn target_views(fvs: Seq<FeatureView>, names: Option<Seq<Seq<char>>>) -> Seq<FeatureView> {
    match names {
        Some(ns) => fvs.filter(named_in(ns)),
        None => fvs,
    }
}

/// Whether a view's name is among the names.
pub open spec fn named_in(ns: Seq<Seq<char>>) -> spec_fn(FeatureView) -> bool {
    |fv: FeatureView| ns.contains(fv.name@)
}

/// Whether a name is among the names.
fn name_listed(names: &Vec<String>, name: &str) -> (r: bool)
    ensures
        r == views(names@).contains(name@),
{
    let n = names.len();
    let mut i: usize = 0;
    while i < n
        invariant
            n == names@.len(),
            i <= n,
            forall|j: int| 0 <= j < i ==> names@[j]@ != name@,
        decreases n - i,
    {
        if crate::strings::str_eq(names[i].as_str(), name) {
            proof {
                assert(views(names@)[i as int] == name@);
            }
            return true;
        }
        i = i + 1;
    }
    proof {
        if views(names@).contains(name@) {
            let j = choose|j: int| 0 <= j < views(names@).len() && views(names@)[j] == name@;
            assert(names@[j]@ == name@);
        }
    }
    false
}

/// The views that a run covers; none is an error.
pub fn select_target_views(fvs: Vec<FeatureView>, names: &Option<Vec<String>>) -> (r: Result<Vec<FeatureView>, OfsError>)
    ensures
        match names {
            Some(ns) => target_views(fvs@, Some(views(ns@))),
            None => target_views(fvs@, None),
        }.len() == 0 <==> r is Err,
        r matches Ok(v) ==> v@ == match names {
            Some(ns) => target_views(fvs@, Some(views(ns@))),
            None => target_views(fvs@, None),
        },
        r matches Err(e) ==> e matches OfsError::NotFound(m) && m@ == "No feature views found to materialize"@,
{
    let ghost all = fvs@;
    let selected = match names {
        Some(ns) => {
            let ghost ns_v = views(ns@);
            let mut rest = fvs;
            let n = rest.len();
            let mut out: Vec<FeatureView> = Vec::new();
            let mut i: usize = 0;
            while i < n
                invariant
                    n == all.len(),
                    i <= n,
                    ns_v == views(ns@),
                    rest@ == all.skip(i as int),
                    out@ == all.take(i as int).filter(named_in(ns_v)),
                decreases n - i,
            {
                let fv = rest.remove(0);
                proof {
                    assert(fv == all[i as int]);
                    assert(rest@ =~= all.skip(i + 1));
                    assert(all.take(i + 1) =~= all.take(i as int).push(all[i as int]));
                    all.take(i as int).lemma_filter_push(all[i as int], named_in(ns_v));
                }
                let listed = name_listed(ns, fv.name.as_str());
                proof {
                    assert(named_in(ns_v)(all[i as int]) == ns_v.contains(all[i as int].name@));
                }
                if listed {
                    out.push(fv);
                }
                i = i + 1;
            }
            proof {
                assert(all.take(n as int) =~= all);
            }
            out
        },
        None => fvs,
    };
    if selected.len() == 0 {
        Err(OfsError::NotFound(String::from_str("No feature views found to materialize")))
    } else {
        Ok(selected)
    }
}

// ---------------------------------------------------------------------------
// The window of an incremental run
// ---------------------------------------------------------------------------

/// The instant a span before `end`, as chrono subtracts it: an `end` within
/// a leap second counts from the end of that second when the span has whole
/// seconds, and otherwise stays within it.
pub open spec fn minus_span(end: UtcDateTime, d: Duration) -> UtcDateTime {
    if end.nanos >= 1_000_000_000 && d.secs > 0 {
        plain_minus_span(UtcDateTime { secs: (end.secs + 1) as i64, nanos: (end.nanos - 1_000_000_000) as u32 }, d)
    } else {
        plain_minus_span(end, d)
    }
}

/// The instant a span before `end`, borrowing a second where the
/// nanoseconds run short.
pub open spec fn plain_minus_span(end: UtcDateTime, d: Duration) -> UtcDateTime {
    if end.nanos >= d.nanos {
        UtcDateTime { secs: (end.secs - d.secs) as i64, nanos: (end.nanos - d.nanos) as u32 }
    } else {
        UtcDateTime { secs: (end.secs - d.secs - 1) as i64, nanos: (end.nanos + 1_000_000_000 - d.nanos) as u32 }
    }
}

/// Where an incremental run starts: at the latest end of the view's
/// materialization intervals; without intervals, the view's time to live
/// before `end`; without that either, a day before `end`.
pub open spec fn incremental_start_spec(
    intervals: Seq<(UtcDateTime, UtcDateTime)>,
    ttl: Option<Duration>,
    end: UtcDateTime,
) -> UtcDateTime {
    match max_interval_end(intervals) {
        Some(m) => m,
        None => match ttl {
            Some(d) => minus_span(end, d),
            None => minus_span(end, Duration { secs: 86400, nanos: 0 }),
        },
    }
}

/// The instants that chrono's arithmetic reaches without overflow here.
pub open spec fn in_chrono_range(secs: int) -> bool {
    -8_334_601_228_800 <= secs <= 8_210_266_876_799
}

/// The latest end of the intervals.
pub fn latest_end(intervals: &Vec<(UtcDateTime, UtcDateTime)>) -> (r: Option<UtcDateTime>)
    ensures
        r == max_interval_end(intervals@),
{
    let n = intervals.len();
    let mut best: Option<UtcDateTime> = None;
    let mut i: usize = 0;
    while i < n
        invariant
            n == intervals@.len(),
            i <= n,
            best == max_interval_end(intervals@.take(i as int)),
        decreases n - i,
    {
        proof {
            assert(intervals@.take(i + 1).drop_last() =~= intervals@.take(i as int));
        }
        let e = intervals[i].1;
        best = match best {
            None => Some(e),
            Some(m) => Some(if m.is_before(&e) { e } else { m }),
        };
        i = i + 1;
    }
    proof {
        assert(intervals@.take(n as int) =~= intervals@);
    }
    best
}

/// Where an incremental run of a view starts.
pub fn incremental_start(
    intervals: &Vec<(UtcDateTime, UtcDateTime)>,
    ttl: Option<Duration>,
    end: UtcDateTime,
) -> (r: UtcDateTime)
    requires
        intervals@.len() == 0 ==> end.nanos < 2_000_000_000,
        intervals@.len() == 0 ==> match ttl {
            Some(d) => d.nanos < 1_000_000_000 && d.secs <= 9_223_372_036_854_775 && in_chrono_range(
                end.secs - d.secs - 1,
            ),
            None => in_chrono_range(end.secs - 86401),
        },
    ensures
        r == incremental_start_spec(intervals@, ttl, end),
{
    proof {
        crate::types::lemma_max_interval_end(intervals@);
    }
    match latest_end(intervals) {
        Some(m) => m,
        None => {
            let d = match ttl {
                Some(d) => d,
                None => Duration { secs: 86400, nanos: 0 },
            };
            let e = if end.nanos >= 1_000_000_000 && d.secs > 0 {
                UtcDateTime { secs: end.secs + 1, nanos: end.nanos - 1_000_000_000 }
            } else {
                end
            };
            if e.nanos >= d.nanos {
                UtcDateTime { secs: e.secs - d.secs as i64, nanos: e.nanos - d.nanos }
            } else {
                UtcDateTime { secs: e.secs - d.secs as i64 - 1, nanos: e.nanos + 1_000_000_000 - d.nanos }
            }
        },
    }
}

/// The window of an incremental run of a view: from its start to `end`,
/// or none when the view is already up to date (the start is not before
/// `end`).
pub fn incremental_window(
    intervals: &Vec<(UtcDateTime, UtcDateTime)>,
    ttl: Option<Duration>,
    end: UtcDateTime,
) -> (r: Option<(UtcDateTime, UtcDateTime)>)
    requires
        intervals@.len() == 0 ==> end.nanos < 2_000_000_000,
        intervals@.len() == 0 ==> match ttl {
            Some(d) => d.nanos < 1_000_000_000 && d.secs <= 9_223_372_036_854_775 && in_chrono_range(
                end.secs - d.secs - 1,
            ),
            None => in_chrono_range(end.secs - 86401),
        },
    ensures
        dt_before(incremental_start_spec(intervals@, ttl, end), end) <==> r is Some,
        r matches Some(w) ==> w.0 == incremental_start_spec(intervals@, ttl, end) && w.1 == end,
{
    let start = incremental_start(intervals, ttl, end);
    if start.is_before(&end) {
        Some((start, end))
    } else {
        None
    }
}

// ---------------------------------------------------------------------------
// Rows to write records
// ---------------------------------------------------------------------------

/// The instant that chrono's `FromStr` for `DateTime<Utc>` reads from a
/// text, as seconds and nanoseconds since the epoch, if it reads one.
pub uninterp spec fn chrono_utc_from_str(s: Seq<char>) -> Option<(i64, u32)>;

/// Calls `str::parse::<chrono::DateTime<chrono::Utc>>`.
#[verifier::external_body]
fn parse_utc_datetime(s: &str) -> (r: Option<UtcDateTime>)
    ensures
        r == match chrono_utc_from_str(s@) {
            Some(p) => Some(UtcDateTime { secs: p.0, nanos: p.1 }),
            None => None,
        },
{
    match s.parse::<chrono::DateTime<chrono::Utc>>() {
        Ok(t) => Some(UtcDateTime { secs: t.timestamp(), nanos: t.timestamp_subsec_nanos() }),
        Err(_) => None,
    }
}

/// The instant that a row's event time text reads as.
pub open spec fn utc_from_str(s: Seq<char>) -> Option<UtcDateTime> {
    match chrono_utc_from_str(s) {
        Some(p) => Some(UtcDateTime { secs: p.0, nanos: p.1 }),
        None => None,
    }
}

/// What a row has given so far: its event time, its feature values by
/// name, and its entity values by key position.
pub struct RowState {
    pub ts: Option<UtcDateTime>,
    pub values: Seq<(Seq<char>, Seq<u8>)>,
    pub entity_values: Seq<Seq<u8>>,
}

/// The position of the first entity key named `name`.
pub open spec fn key_position(keys: Seq<Seq<char>>, name: Seq<char>) -> Option<int>
    decreases keys.len(),
{
    if keys.len() == 0 {
        None
    } else if keys[0] == name {
        Some(0)
    } else {
        match key_position(keys.drop_first(), name) {
            Some(j) => Some(j + 1),
            None => None,
        }
    }
}

proof fn lemma_key_position_at(keys: Seq<Seq<char>>, name: Seq<char>, i: int)
    requires
        0 <= i < keys.len(),
        keys[i] == name,
        forall|j: int| 0 <= j < i ==> keys[j] != name,
    ensures
        key_position(keys, name) == Some(i),
    decreases keys.len(),
{
    if i > 0 {
        lemma_key_position_at(keys.drop_first(), name, i - 1);
    }
}

proof fn lemma_key_position_absent(keys: Seq<Seq<char>>, name: Seq<char>)
    requires
        forall|j: int| 0 <= j < keys.len() ==> keys[j] != name,
    ensures
        key_position(keys, name) is None,
    decreases keys.len(),
{
    if keys.len() > 0 {
        lemma_key_position_absent(keys.drop_first(), name);
    }
}

/// The entity values with position `idx` set, padding with empty values
/// up to it.
pub open spec fn set_entity_value(ev: Seq<Seq<u8>>, idx: int, v: Seq<u8>) -> Seq<Seq<u8>> {
    let padded = if ev.len() <= idx {
        ev + Seq::new((idx + 1 - ev.len()) as nat, |i: int| Seq::<u8>::empty())
    } else {
        ev
    };
    padded.update(idx, v)
}

/// The name under which a column's value is written: the column's name
/// with full feature names, else without a leading `{view}__`.
pub open spec fn clean_name(fv_name: Seq<char>, col: Seq<char>, full: bool) -> Seq<char> {
    if full {
        col
    } else {
        crate::serving::local_name(fv_name, col)
    }
}

/// What one column of a row gives: an event time column sets the time when
/// its text reads as one; an entity key column sets that key's value; any
/// other column sets a feature value.
pub open spec fn apply_column(fv: FeatureView, full: bool, st: RowState, col: (Seq<char>, Seq<char>)) -> RowState {
    if col.0 == "event_timestamp"@ || col.0 == "event_ts"@ {
        RowState {
            ts: match utc_from_str(col.1) {
                Some(t) => Some(t),
                None => st.ts,
            },
            ..st
        }
    } else {
        match key_position(views(fv.entities@), col.0) {
            Some(idx) => RowState {
                entity_values: set_entity_value(st.entity_values, idx, vstd::utf8::encode_utf8(col.1)),
                ..st
            },
            None => RowState {
                values: crate::kv::upsert(st.values, clean_name(fv.name@, col.0, full), vstd::utf8::encode_utf8(col.1)),
                ..st
            },
        }
    }
}

/// What a row's columns give, in order.
pub open spec fn fold_row(fv: FeatureView, full: bool, cols: Seq<(Seq<char>, Seq<char>)>) -> RowState
    decreases cols.len(),
{
    if cols.len() == 0 {
        RowState { ts: None, values: Seq::empty(), entity_values: Seq::empty() }
    } else {
        apply_column(fv, full, fold_row(fv, full, cols.drop_last()), cols.last())
    }
}

/// The record written for a row: the view's entity keys with the row's
/// entity values (each typed as a string), the row's feature values, its
/// event time (or `end`), and the view's name.
pub open spec fn is_row_record(rec: OnlineWriteRecord, fv: FeatureView, full: bool, row: Seq<(Seq<char>, Seq<char>)>, end: UtcDateTime) -> bool {
    let st = fold_row(fv, full, row);
    &&& views(rec.entity_key.join_keys@) == views(fv.entities@)
    &&& rec.entity_key.entity_values@.map_values(|v: Vec<u8>| v@) == st.entity_values
    &&& rec.entity_key.value_types@ == Seq::new(st.entity_values.len(), |i: int| ValueType::String)
    &&& rec.values@.map_values(|p: (String, Vec<u8>)| (p.0@, p.1@)) == st.values
    &&& rec.timestamp == match st.ts {
        Some(t) => t,
        None => end,
    }
    &&& rec.feature_view_name@ == fv.name@
}

/// Sets the first entry of `k` to `v`, appending it when absent.
fn set_value_in(m: &mut Vec<(String, Vec<u8>)>, k: String, v: Vec<u8>)
    ensures
        record_values(final(m)@) == crate::kv::upsert(record_values(old(m)@), k@, v@),
{
    let ghost pv = record_values(m@);
    let n = m.len();
    let mut i: usize = 0;
    while i < n
        invariant
            n == m@.len(),
            pv == record_values(m@),
            pv == record_values(old(m)@),
            i <= n,
            forall|j: int| 0 <= j < i ==> pv[j].0 != k@,
        decreases n - i,
    {
        proof {
            assert(pv[i as int] == (m@[i as int].0@, m@[i as int].1@));
        }
        if crate::strings::str_eq(m[i].0.as_str(), k.as_str()) {
            let ghost kv = k@;
            let ghost vv = v@;
            m.set(i, (k, v));
            proof {
                crate::kv::lemma_upsert_at(pv, kv, vv, i as int);
                assert(record_values(m@) =~= pv.update(i as int, (kv, vv)));
            }
            return;
        }
        i = i + 1;
    }
    proof {
        crate::kv::lemma_upsert_absent(pv, k@, v@);
    }
    let ghost kv = k@;
    let ghost vv = v@;
    m.push((k, v));
    proof {
        assert(record_values(m@) =~= pv.push((kv, vv)));
    }
}

/// The names and bytes of record values.
pub open spec fn record_values(v: Seq<(String, Vec<u8>)>) -> Seq<(Seq<char>, Seq<u8>)> {
    v.map_values(|p: (String, Vec<u8>)| (p.0@, p.1@))
}

/// The position of the first entity key named `name`.
fn find_key_position(keys: &Vec<String>, name: &str) -> (r: Option<usize>)
    ensures
        match (r, key_position(views(keys@), name@)) {
            (Some(i), Some(j)) => i == j && i < keys@.len(),
            (None, None) => true,
            _ => false,
        },
{
    let n = keys.len();
    let mut i: usize = 0;
    while i < n
        invariant
            n == keys@.len(),
            i <= n,
            forall|j: int| 0 <= j < i ==> views(keys@)[j] != name@,
        decreases n - i,
    {
        proof {
            assert(views(keys@)[i as int] == keys@[i as int]@);
        }
        if crate::strings::str_eq(keys[i].as_str(), name) {
            proof {
                lemma_key_position_at(views(keys@), name@, i as int);
            }
            return Some(i);
        }
        i = i + 1;
    }
    proof {
        lemma_key_position_absent(views(keys@), name@);
    }
    None
}

/// The feature values of a row name each feature once.
proof fn lemma_fold_row_distinct(fv: FeatureView, full: bool, cols: Seq<(Seq<char>, Seq<char>)>)
    ensures
        crate::kv::distinct_keys(fold_row(fv, full, cols).values),
    decreases cols.len(),
{
    if cols.len() > 0 {
        let st = fold_row(fv, full, cols.drop_last());
        lemma_fold_row_distinct(fv, full, cols.drop_last());
        let col = cols.last();
        crate::kv::lemma_upsert_distinct(st.values, clean_name(fv.name@, col.0, full), vstd::utf8::encode_utf8(col.1));
    }
}

/// The record written for one row of a view.
pub fn row_record(fv: &FeatureView, row: &Vec<(String, String)>, end: UtcDateTime, full: bool) -> (r: OnlineWriteRecord)
    ensures
        is_row_record(r, *fv, full, crate::kv::pairs_view(row@), end),
        crate::types::record_keys_distinct(r),
{
    let ghost cols = crate::kv::pairs_view(row@);
    let mut ts: Option<UtcDateTime> = None;
    let mut values: Vec<(String, Vec<u8>)> = Vec::new();
    let mut entity_values: Vec<Vec<u8>> = Vec::new();
    let mut value_types: Vec<ValueType> = Vec::new();
    let n = row.len();
    let mut i: usize = 0;
    while i < n
        invariant
            n == row@.len(),
            cols == crate::kv::pairs_view(row@),
            i <= n,
            ts == fold_row(*fv, full, cols.take(i as int)).ts,
            record_values(values@) == fold_row(*fv, full, cols.take(i as int)).values,
            entity_values@.map_values(|v: Vec<u8>| v@) == fold_row(*fv, full, cols.take(i as int)).entity_values,
            value_types@ == Seq::new(entity_values@.len(), |k: int| ValueType::String),
        decreases n - i,
    {
        let ghost st = fold_row(*fv, full, cols.take(i as int));
        proof {
            assert(cols.take(i + 1).drop_last() =~= cols.take(i as int));
            assert(cols.take(i + 1).last() == cols[i as int]);
            assert(cols[i as int] == (row@[i as int].0@, row@[i as int].1@));
            reveal_strlit("event_timestamp");
            reveal_strlit("event_ts");
        }
        let name = row[i].0.as_str();
        let val = row[i].1.as_str();
        if crate::strings::str_eq(name, "event_timestamp") || crate::strings::str_eq(name, "event_ts") {
            match parse_utc_datetime(val) {
                Some(t) => {
                    ts = Some(t);
                },
                None => {},
            }
        } else {
            match find_key_position(&fv.entities, name) {
                Some(idx) => {
                    let ghost ev0 = entity_values@.map_values(|v: Vec<u8>| v@);
                    while entity_values.len() <= idx
                        invariant
                            ev0.len() <= entity_values@.len(),
                            entity_values@.len() <= idx + 1 || entity_values@.len() == ev0.len(),
                            entity_values@.map_values(|v: Vec<u8>| v@) == ev0 + Seq::new(
                                (entity_values@.len() - ev0.len()) as nat,
                                |k: int| Seq::<u8>::empty(),
                            ),
                            value_types@ == Seq::new(entity_values@.len(), |k: int| ValueType::String),
                        decreases idx + 1 - entity_values@.len(),
                    {
                        let ghost e1 = entity_values@;
                        entity_values.push(Vec::new());
                        value_types.push(ValueType::String);
                        proof {
                            assert(entity_values@.map_values(|v: Vec<u8>| v@) =~= e1.map_values(|v: Vec<u8>| v@).push(
                                Seq::<u8>::empty(),
                            ));
                            assert(entity_values@.map_values(|v: Vec<u8>| v@) =~= ev0 + Seq::new(
                                (entity_values@.len() - ev0.len()) as nat,
                                |k: int| Seq::<u8>::empty(),
                            ));
                            assert(value_types@ =~= Seq::new(entity_values@.len(), |k: int| ValueType::String));
                        }
                    }
                    let ghost padded = entity_values@.map_values(|v: Vec<u8>| v@);
                    let bytes = vstd::slice::slice_to_vec(val.as_bytes());
                    entity_values.set(idx, bytes);
                    proof {
                        assert(padded =~= if ev0.len() <= idx {
                            ev0 + Seq::new((idx + 1 - ev0.len()) as nat, |k: int| Seq::<u8>::empty())
                        } else {
                            ev0
                        });
                        assert(entity_values@.map_values(|v: Vec<u8>| v@) =~= padded.update(
                            idx as int,
                            vstd::utf8::encode_utf8(val@),
                        ));
                    }
                },
                None => {
                    let key = if full {
                        String::from_str(name)
                    } else {
                        crate::serving::local_feature_name(fv.name.as_str(), name)
                    };
                    let bytes = vstd::slice::slice_to_vec(val.as_bytes());
                    set_value_in(&mut values, key, bytes);
                },
            }
        }
        i = i + 1;
    }
    proof {
        assert(cols.take(n as int) =~= cols);
    }
    let timestamp = match ts {
        Some(t) => t,
        None => end,
    };
    let entity_key = EntityKey {
        join_keys: crate::strings::clone_strings(&fv.entities),
        entity_values,
        value_types,
    };
    proof {
        assert(values@.map_values(|p: (String, Vec<u8>)| (p.0@, p.1@)) == record_values(values@));
        lemma_fold_row_distinct(*fv, full, cols);
    }
    OnlineWriteRecord { entity_key, values, timestamp, feature_view_name: fv.name.clone() }
}

/// The records written for the rows pulled for a view, one per row.
pub fn rows_to_records(fv: &FeatureView, rows: &Vec<Vec<(String, String)>>, end: UtcDateTime, full: bool) -> (r: Vec<
    OnlineWriteRecord,
>)
    ensures
        r@.len() == rows@.len(),
        forall|i: int| 0 <= i < rows@.len() ==> is_row_record(#[trigger] r@[i], *fv, full, crate::kv::pairs_view(rows@[i]@), end),
{
    let n = rows.len();
    let mut out: Vec<OnlineWriteRecord> = Vec::new();
    let mut i: usize = 0;
    while i < n
        invariant
            n == rows@.len(),
            i <= n,
            out@.len() == i,
            forall|j: int| 0 <= j < i ==> is_row_record(#[trigger] out@[j], *fv, full, crate::kv::pairs_view(rows@[j]@), end),
        decreases n - i,
    {
        let rec = row_record(fv, &rows[i], end, full);
        out.push(rec);
        i = i + 1;
    }
    out
}

/// The size of the batches in which records are written.
pub const WRITE_BATCH_SIZE: usize = 100;

/// The records in batches of 100, in order; only the last may be smaller.
pub fn write_batches(records: Vec<OnlineWriteRecord>) -> (r: Vec<Vec<OnlineWriteRecord>>)
    ensures
        r@.len() == (records@.len() + 99) / 100,
        forall|b: int| 0 <= b < r@.len() ==> (#[trigger] r@[b])@ == records@.subrange(
            b * 100,
            if (b + 1) * 100 <= records@.len() {
                (b + 1) * 100
            } else {
                records@.len() as int
            },
        ),
{
    let ghost all = records@;
    let total = records.len();
    let mut rest = records;
    let mut out: Vec<Vec<OnlineWriteRecord>> = Vec::new();
    let mut done: usize = 0;
    while rest.len() > 0
        invariant
            total == all.len(),
            done + rest@.len() == total,
            rest@ == all.skip(done as int),
            done == out@.len() * 100 || rest@.len() == 0,
            done <= total,
            out@.len() == (done + 99) / 100,
            done % 100 == 0 || rest@.len() == 0,
            forall|b: int| 0 <= b < out@.len() ==> (#[trigger] out@[b])@ == all.subrange(
                b * 100,
                if (b + 1) * 100 <= total {
                    (b + 1) * 100
                } else {
                    total as int
                },
            ),
        decreases rest@.len(),
    {
        let take = if rest.len() < WRITE_BATCH_SIZE {
            rest.len()
        } else {
            WRITE_BATCH_SIZE
        };
        let tail = rest.split_off(take);
        let batch = rest;
        rest = tail;
        let ghost b = out@.len() as int;
        proof {
            assert(done == b * 100);
            assert(batch@ =~= all.subrange(b * 100, if (b + 1) * 100 <= total {
                (b + 1) * 100
            } else {
                total as int
            }));
        }
        out.push(batch);
        done = done + take;
        proof {
            assert(rest@ =~= all.skip(done as int));
        }
    }
    out
}


/// An event time column of a row (named `event_ts` or `event_timestamp`)
/// sets the row's event time to the instant its text reads as, keeps the
/// earlier time when the text reads as none, and never becomes a feature
/// value or an entity value.
pub proof fn lemma_event_time_column(
    fv: FeatureView,
    full: bool,
    cols: Seq<(Seq<char>, Seq<char>)>,
    name: Seq<char>,
    text: Seq<char>,
)
    requires
        name == "event_ts"@ || name == "event_timestamp"@,
    ensures
        fold_row(fv, full, cols.push((name, text))).values == fold_row(fv, full, cols).values,
        fold_row(fv, full, cols.push((name, text))).entity_values == fold_row(fv, full, cols).entity_values,
        fold_row(fv, full, cols.push((name, text))).ts == match utc_from_str(text) {
            Some(t) => Some(t),
            None => fold_row(fv, full, cols).ts,
        },
{
    assert(cols.push((name, text)).drop_last() =~= cols);
}


/// An entity key column of a row (named as the first of the view's entity
/// keys it matches, at position `idx`) sets that key's value to the
/// column's bytes, leaves the other entity values and the feature values as
/// they were, and does not touch the event time.
pub proof fn lemma_entity_key_column(
    fv: FeatureView,
    full: bool,
    cols: Seq<(Seq<char>, Seq<char>)>,
    name: Seq<char>,
    text: Seq<char>,
    idx: int,
)
    requires
        name != "event_ts"@,
        name != "event_timestamp"@,
        0 <= idx < fv.entities@.len(),
        fv.entities@[idx]@ == name,
        forall|j: int| 0 <= j < idx ==> fv.entities@[j]@ != name,
    ensures
        ({
            let before = fold_row(fv, full, cols);
            let after = fold_row(fv, full, cols.push((name, text)));
            &&& after.values == before.values
            &&& after.ts == before.ts
            &&& idx < after.entity_values.len()
            &&& after.entity_values[idx] == vstd::utf8::encode_utf8(text)
            &&& forall|j: int| 0 <= j < before.entity_values.len() && j != idx ==> after.entity_values[j] == before.entity_values[j]
        }),
{
    assert(cols.push((name, text)).drop_last() =~= cols);
    let keys = views(fv.entities@);
    assert(keys[idx] == name);
    assert forall|j: int| 0 <= j < idx implies keys[j] != name by {
        assert(keys[j] == fv.entities@[j]@);
    }
    lemma_key_position_at(keys, name, idx);
}

/// Any other column of a row (neither an event time nor one of the view's
/// entity keys) sets the feature value under its name (without a leading
/// `{view}__` unless full names are asked for) to the column's bytes, leaves every other feature value, the entity values and
/// the event time as they were, and names each feature once.
pub proof fn lemma_feature_column(
    fv: FeatureView,
    full: bool,
    cols: Seq<(Seq<char>, Seq<char>)>,
    name: Seq<char>,
    text: Seq<char>,
)
    requires
        name != "event_ts"@,
        name != "event_timestamp"@,
        forall|j: int| 0 <= j < fv.entities@.len() ==> fv.entities@[j]@ != name,
    ensures
        ({
            let before = fold_row(fv, full, cols);
            let after = fold_row(fv, full, cols.push((name, text)));
            let k = if full {
                name
            } else if crate::strings::has_prefix(name, fv.name@ + "__"@) {
                name.skip(fv.name@.len() + 2int)
            } else {
                name
            };
            &&& crate::kv::lookup(after.values, k) == Some(vstd::utf8::encode_utf8(text))
            &&& forall|q: Seq<char>| q != k ==> crate::kv::lookup(after.values, q) == crate::kv::lookup(before.values, q)
            &&& crate::kv::distinct_keys(after.values)
            &&& after.entity_values == before.entity_values
            &&& after.ts == before.ts
        }),
{
    assert(cols.push((name, text)).drop_last() =~= cols);
    let keys = views(fv.entities@);
    assert forall|j: int| 0 <= j < keys.len() implies keys[j] != name by {
        assert(keys[j] == fv.entities@[j]@);
    }
    lemma_key_position_absent(keys, name);
    lemma_fold_row_distinct(fv, full, cols);
    reveal_strlit("__");
    let k = clean_name(fv.name@, name, full);
    crate::kv::lemma_upsert_distinct(fold_row(fv, full, cols).values, k, vstd::utf8::encode_utf8(text));
}

} // verus!
