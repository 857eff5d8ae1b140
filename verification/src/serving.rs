//! The decisions of the feature server: request ids, which paths the rate
//! limit spares, how entity keys and feature views are read from requests,
//! and how read results and push outcomes are answered. Serving HTTP and
//! calling the stores is up to the caller.
use vstd::prelude::*;

use crate::entity_key::{
    deserialize_entity_key_v3, deserialized_entity_key, entity_key_matches, fits_v3, lemma_entity_key_roundtrip,
    serialized_entity_key, sort_triples, triple_keys, triples_of, KeyTriple,
};
use crate::online::{
    entity_key_hex, field_status_name, hex_decode, hex_decoded, FieldStatus, OnlineReadResponse,
};
use crate::strings::{chars_of, has_prefix, starts_with, string_from_chars, views};
use crate::time::{parse_rfc3339, rfc3339_instant, rfc3339_text, utc_now, format_rfc3339, UtcDateTime};
use crate::types::{
    EntityKey, Feature, FeatureView, FeatureViewProjection, FeatureViewWithProjection,
};

verus! {

// ---------------------------------------------------------------------------
// Request ids
// ---------------------------------------------------------------------------

/// The lower-case hex form of a natural number, without leading zeros.
pub open spec fn hex_text(n: nat) -> Seq<char>
    decreases n,
{
    if n < 16 {
        seq![crate::online::hex_digit(n as int)]
    } else {
        hex_text(n / 16).push(crate::online::hex_digit((n % 16) as int))
    }
}

/// A request id: `req-`, the seconds in hex, `-`, the sequence number in
/// hex.
pub open spec fn request_id_text(secs: u64, seq_no: u64) -> Seq<char> {
    "req-"@ + hex_text(secs as nat) + "-"@ + hex_text(seq_no as nat)
}

fn push_hex(out: &mut Vec<char>, n: u64)
    ensures
        final(out)@ == old(out)@ + hex_text(n as nat),
    decreases n,
{
    if n >= 16 {
        push_hex(out, n / 16);
    }
    let d: u8 = (n % 16) as u8;
    let c: char = if d < 10 {
        (48u8 + d) as char
    } else {
        (87u8 + d) as char
    };
    proof {
        assert(c == crate::online::hex_digit((n % 16) as int));
    }
    out.push(c);
}

/// The request id of a sequence number taken at `secs` seconds since the
/// epoch.
pub fn format_request_id(secs: u64, seq_no: u64) -> (r: String)
    ensures
        r@ == request_id_text(secs, seq_no),
{
    let mut out: Vec<char> = Vec::new();
    out.push('r');
    out.push('e');
    out.push('q');
    out.push('-');
    push_hex(&mut out, secs);
    out.push('-');
    push_hex(&mut out, seq_no);
    proof {
        reveal_strlit("req-");
        reveal_strlit("-");
        assert(out@ =~= request_id_text(secs, seq_no));
    }
    string_from_chars(out.as_slice())
}

/// Calls `SystemTime::now` and reads the whole seconds since the Unix epoch
/// (zero for a clock set before it).
#[verifier::external_body]
fn unix_secs() -> (r: u64) {
    match std::time::SystemTime::now().duration_since(std::time::UNIX_EPOCH) {
        Ok(d) => d.as_secs(),
        Err(_) => 0,
    }
}

/// A fresh request id: the counter's number, taken at the current second;
/// the counter moves on by one (wrapping).
pub fn make_request_id(counter: &mut u64) -> (r: String)
    ensures
        exists|secs: u64| r@ == request_id_text(secs, *old(counter)),
        *final(counter) == (if *old(counter) == u64::MAX {
            0
        } else {
            (*old(counter) + 1) as u64
        }),
{
    let id = *counter;
    *counter = id.wrapping_add(1);
    let secs = unix_secs();
    format_request_id(secs, id)
}

/// Different hex digit values give different digits.
pub proof fn lemma_hex_digit_injective(x: int, y: int)
    requires
        0 <= x < 16,
        0 <= y < 16,
        crate::online::hex_digit(x) == crate::online::hex_digit(y),
    ensures
        x == y,
{
    assert(crate::online::hex_digit(x) as int == if x < 10 { 48 + x } else { 87 + x });
    assert(crate::online::hex_digit(y) as int == if y < 10 { 48 + y } else { 87 + y });
}

/// Two numbers with the same hex form are the same number.
pub proof fn lemma_hex_text_injective(a: nat, b: nat)
    requires
        hex_text(a) == hex_text(b),
    ensures
        a == b,
    decreases a + b,
{
    lemma_hex_text_nonempty(a);
    lemma_hex_text_nonempty(b);
    if a < 16 && b < 16 {
        assert(hex_text(a) =~= seq![crate::online::hex_digit(a as int)]);
        assert(hex_text(b) =~= seq![crate::online::hex_digit(b as int)]);
        assert(hex_text(a)[0] == hex_text(b)[0]);
        assert(hex_text(a)[0] == crate::online::hex_digit(a as int));
        assert(hex_text(b)[0] == crate::online::hex_digit(b as int));
        lemma_hex_digit_injective(a as int, b as int);
    } else if a >= 16 && b >= 16 {
        let ta = hex_text(a);
        let tb = hex_text(b);
        assert(ta.drop_last() =~= hex_text(a / 16));
        assert(tb.drop_last() =~= hex_text(b / 16));
        lemma_hex_text_injective(a / 16, b / 16);
        assert(ta.last() == tb.last());
        lemma_hex_digit_injective((a % 16) as int, (b % 16) as int);
    } else if a < 16 {
        lemma_hex_text_nonempty(b / 16);
        assert(hex_text(b).len() == hex_text(b / 16).len() + 1);
    } else {
        lemma_hex_text_nonempty(a / 16);
        assert(hex_text(a).len() == hex_text(a / 16).len() + 1);
    }
}

/// The hex form of a number is never empty and holds only hex digits.
pub proof fn lemma_hex_text_nonempty(n: nat)
    ensures
        hex_text(n).len() >= 1,
        forall|i: int| 0 <= i < hex_text(n).len() ==> #[trigger] hex_text(n)[i] != '-',
    decreases n,
{
    if n >= 16 {
        lemma_hex_text_nonempty(n / 16);
        let t = hex_text(n);
        assert forall|i: int| 0 <= i < t.len() implies #[trigger] t[i] != '-' by {
            if i < t.len() - 1 {
                assert(t[i] == hex_text(n / 16)[i]);
            }
        }
    }
}

/// A request id taken at least 65536 seconds after the epoch (at any clock
/// reading from 1970-01-01T18:12:16 on) is longer than ten characters: its
/// seconds take at least five hex digits.
pub proof fn lemma_request_id_length(secs: u64, seq_no: u64)
    requires
        secs >= 65536,
    ensures
        request_id_text(secs, seq_no).len() > 10,
{
    let n0 = secs as nat;
    let n1 = n0 / 16;
    let n2 = n1 / 16;
    let n3 = n2 / 16;
    let n4 = n3 / 16;
    assert(n1 >= 4096 && n2 >= 256 && n3 >= 16 && n4 >= 1);
    lemma_hex_text_nonempty(n4);
    lemma_hex_text_nonempty(seq_no as nat);
    assert(hex_text(n3).len() == hex_text(n4).len() + 1);
    assert(hex_text(n2).len() == hex_text(n3).len() + 1);
    assert(hex_text(n1).len() == hex_text(n2).len() + 1);
    assert(hex_text(n0).len() == hex_text(n1).len() + 1);
    reveal_strlit("req-");
    reveal_strlit("-");
}

/// Request ids with different sequence numbers differ, whatever the seconds
/// they were taken at: the sequence number is the text after the id's last
/// `-`.
pub proof fn lemma_request_ids_differ(secs_a: u64, secs_b: u64, a: u64, b: u64)
    requires
        a != b,
    ensures
        request_id_text(secs_a, a) != request_id_text(secs_b, b),
{
    let pa = "req-"@ + hex_text(secs_a as nat) + "-"@;
    let pb = "req-"@ + hex_text(secs_b as nat) + "-"@;
    let ha = hex_text(a as nat);
    let hb = hex_text(b as nat);
    let ta = request_id_text(secs_a, a);
    let tb = request_id_text(secs_b, b);
    assert(ta =~= pa + ha);
    assert(tb =~= pb + hb);
    lemma_hex_text_nonempty(a as nat);
    lemma_hex_text_nonempty(b as nat);
    reveal_strlit("-");
    if ta == tb {
        if ha.len() == hb.len() {
            assert(ha =~= ta.skip(ta.len() - ha.len()));
            assert(hb =~= tb.skip(tb.len() - hb.len()));
            lemma_hex_text_injective(a as nat, b as nat);
        } else if ha.len() < hb.len() {
            let k = ta.len() - ha.len() - 1;
            assert(ta[k] == pa[pa.len() - 1]);
            assert(pa[pa.len() - 1] == '-');
            assert(tb[k] == hb[k - pb.len()]);
        } else {
            let k = tb.len() - hb.len() - 1;
            assert(tb[k] == pb[pb.len() - 1]);
            assert(pb[pb.len() - 1] == '-');
            assert(ta[k] == ha[k - pa.len()]);
        }
    }
}

/// Two request ids made from one counter, `n` calls apart with
/// `0 < n < 2^64` (so that the counter has not come round again), differ.
pub proof fn lemma_successive_request_ids_differ(secs_a: u64, secs_b: u64, start: u64, n: int)
    requires
        0 < n < 0x1_0000_0000_0000_0000,
    ensures
        request_id_text(secs_a, start) != request_id_text(
            secs_b,
            ((start + n) % 0x1_0000_0000_0000_0000) as u64,
        ),
{
    let later = ((start + n) % 0x1_0000_0000_0000_0000) as u64;
    assert(later != start);
    lemma_request_ids_differ(secs_a, secs_b, start, later);
}

// ---------------------------------------------------------------------------
// Rate limiting
// ---------------------------------------------------------------------------

/// The paths that the rate limit spares: health, readiness, metrics and
/// the API documentation.
pub open spec fn rate_limit_exempt(path: Seq<char>) -> bool {
    has_prefix(path, "/v1/health"@) || has_prefix(path, "/v1/ready"@) || has_prefix(path, "/v1/metrics"@)
        || has_prefix(path, "/docs"@)
}

/// Whether a request path is spared by the rate limit.
pub fn is_rate_limit_exempt(path: &str) -> (r: bool)
    ensures
        r == rate_limit_exempt(path@),
{
    starts_with(path, "/v1/health") || starts_with(path, "/v1/ready") || starts_with(path, "/v1/metrics")
        || starts_with(path, "/docs")
}

/// The requests per second that the limiter allows: the configured rate,
/// at least one.
pub fn effective_rps(rps: u32) -> (r: u32)
    ensures
        r == if rps == 0 {
            1
        } else {
            rps
        },
{
    if rps == 0 {
        1
    } else {
        rps
    }
}

// ---------------------------------------------------------------------------
// Entity keys in requests
// ---------------------------------------------------------------------------

/// The entity key that a write request names: the v3 encoding, when the
/// text is its hex form and decodes; else an entity key with the text as
/// its one join key.
pub open spec fn parsed_entity_key_ok(s: Seq<char>, r: EntityKey) -> bool {
    match hex_decoded(vstd::utf8::encode_utf8(s)) {
        Some(bytes) => match deserialized_entity_key(bytes) {
            Ok(parsed) => entity_key_matches(r, parsed),
            Err(_) => fallback_key(s, r),
        },
        None => fallback_key(s, r),
    }
}

/// The entity key with the text as its one join key and no values.
pub open spec fn fallback_key(s: Seq<char>, r: EntityKey) -> bool {
    &&& views(r.join_keys@) == seq![s]
    &&& r.entity_values@.len() == 0
    &&& r.value_types@.len() == 0
}

/// Reads the entity key of a write request.
pub fn parse_entity_key(s: &str) -> (r: EntityKey)
    ensures
        parsed_entity_key_ok(s@, r),
{
    match hex_decode(s.as_bytes()) {
        Some(bytes) => {
            match deserialize_entity_key_v3(bytes.as_slice()) {
                Ok(ek) => {
                    return ek;
                },
                Err(_) => {},
            }
        },
        None => {},
    }
    let mut keys: Vec<String> = Vec::new();
    keys.push(String::from_str(s));
    proof {
        assert(views(keys@) =~= seq![s@]);
    }
    EntityKey::new(keys)
}

/// A write request that names an entity by the hex form of its v3
/// encoding (the form under which the stores keep it) is read back to the
/// entity's join keys, values and value types, in the sorted order of the
/// key names, for every entity key whose lengths fit the format.
pub proof fn lemma_parse_entity_key_of_hex(ek: EntityKey, r: EntityKey)
    requires
        fits_v3(ek),
        parsed_entity_key_ok(entity_key_hex(ek), r),
    ensures
        entity_key_matches(
            r,
            (
                triple_keys(sort_triples(triples_of(ek))),
                sort_triples(triples_of(ek)).map_values(|p: KeyTriple| p.1),
                sort_triples(triples_of(ek)).map_values(|p: KeyTriple| p.2),
            ),
        ),
{
    crate::online::lemma_hex_roundtrip(serialized_entity_key(ek));
    lemma_entity_key_roundtrip(ek);
}

/// The entity keys of a read request: one per row, as many rows as the
/// first column has values; each row's key has, for each column long
/// enough, the column's name and the row's value (as its text's bytes).
pub open spec fn request_entity_key(columns: Seq<(String, Vec<String>)>, row: int, ek: EntityKey) -> bool {
    let cols = columns.filter(has_row(row));
    &&& views(ek.join_keys@) == cols.map_values(|c: (String, Vec<String>)| c.0@)
    &&& ek.entity_values@.map_values(|v: Vec<u8>| v@) == cols.map_values(
        |c: (String, Vec<String>)| vstd::utf8::encode_utf8(c.1@[row]@),
    )
    &&& ek.value_types@.len() == 0
}

/// Whether a column has a value for the row.
pub open spec fn has_row(row: int) -> spec_fn((String, Vec<String>)) -> bool {
    |c: (String, Vec<String>)| row < c.1@.len()
}

/// The entity keys of a read request whose entities are given by column:
/// each column is a join key name and its values (as JSON text), one per
/// row.
pub fn entity_keys_from_columns(columns: &Vec<(String, Vec<String>)>) -> (r: Vec<EntityKey>)
    ensures
        r@.len() == (if columns@.len() == 0 {
            0
        } else {
            columns@[0].1@.len()
        }),
        forall|i: int| 0 <= i < r@.len() ==> request_entity_key(columns@, i, #[trigger] r@[i]),
{
    let count = if columns.len() == 0 {
        0
    } else {
        columns[0].1.len()
    };
    let mut out: Vec<EntityKey> = Vec::new();
    let mut i: usize = 0;
    while i < count
        invariant
            count == (if columns@.len() == 0 {
                0
            } else {
                columns@[0].1@.len()
            }),
            i <= count,
            out@.len() == i,
            forall|j: int| 0 <= j < i ==> request_entity_key(columns@, j, #[trigger] out@[j]),
        decreases count - i,
    {
        let mut keys: Vec<String> = Vec::new();
        let mut vals: Vec<Vec<u8>> = Vec::new();
        let n = columns.len();
        let mut c: usize = 0;
        let ghost row = i as int;
        while c < n
            invariant
                n == columns@.len(),
                c <= n,
                row == i,
                views(keys@) == columns@.take(c as int).filter(has_row(row)).map_values(
                    |q: (String, Vec<String>)| q.0@,
                ),
                vals@.map_values(|v: Vec<u8>| v@) == columns@.take(c as int).filter(has_row(row)).map_values(
                    |q: (String, Vec<String>)| vstd::utf8::encode_utf8(q.1@[row]@),
                ),
            decreases n - c,
        {
            let ghost k0 = keys@;
            let ghost v0 = vals@;
            if i < columns[c].1.len() {
                keys.push(columns[c].0.clone());
                vals.push(vstd::slice::slice_to_vec(columns[c].1[i].as_str().as_bytes()));
            }
            c = c + 1;
            proof {
                let t = columns@.take(c - 1);
                let e = columns@[c - 1];
                assert(columns@.take(c as int) =~= t.push(e));
                t.lemma_filter_push(e, has_row(row));
                let ft = t.filter(has_row(row));
                if row < e.1@.len() {
                    assert(has_row(row)(e));
                    assert(columns@.take(c as int).filter(has_row(row)) == ft.push(e));
                    assert(views(keys@) =~= views(k0).push(e.0@));
                    assert(ft.push(e).map_values(|q: (String, Vec<String>)| q.0@) =~= ft.map_values(
                        |q: (String, Vec<String>)| q.0@,
                    ).push(e.0@));
                    assert(vals@.map_values(|v: Vec<u8>| v@) =~= v0.map_values(|v: Vec<u8>| v@).push(
                        vstd::utf8::encode_utf8(e.1@[row]@),
                    ));
                    assert(ft.push(e).map_values(|q: (String, Vec<String>)| vstd::utf8::encode_utf8(q.1@[row]@))
                        =~= ft.map_values(|q: (String, Vec<String>)| vstd::utf8::encode_utf8(q.1@[row]@)).push(
                        vstd::utf8::encode_utf8(e.1@[row]@),
                    ));
                } else {
                    assert(!has_row(row)(e));
                    assert(columns@.take(c as int).filter(has_row(row)) == ft);
                }
            }
        }
        proof {
            assert(columns@.take(n as int) =~= columns@);
        }
        let ek = EntityKey { join_keys: keys, entity_values: vals, value_types: Vec::new() };
        out.push(ek);
        i = i + 1;
    }
    out
}

// ---------------------------------------------------------------------------
// Features asked for by name
// ---------------------------------------------------------------------------

/// Two features alike in every attribute.
pub open spec fn same_feature(a: Feature, b: Feature) -> bool {
    &&& a.name@ == b.name@
    &&& a.value_type == b.value_type
    &&& a.description@ == b.description@
    &&& a.tags@ == b.tags@
    &&& a.vector_index == b.vector_index
    &&& crate::source::opt_view(a.vector_search_metric) == crate::source::opt_view(b.vector_search_metric)
    &&& a.vector_length == b.vector_length
}

/// A copy of a feature.
pub fn copy_feature(f: &Feature) -> (r: Feature)
    ensures
        same_feature(r, *f),
{
    Feature {
        name: f.name.clone(),
        value_type: f.value_type,
        description: f.description.clone(),
        tags: f.tags.clone(),
        vector_index: f.vector_index,
        vector_search_metric: crate::config::clone_opt_string(&f.vector_search_metric),
        vector_length: f.vector_length,
    }
}

/// The name that a requested feature has within a feature view: the
/// request without a leading `{view}__`, or the whole request.
pub open spec fn local_name(fv_name: Seq<char>, req: Seq<char>) -> Seq<char> {
    let p = fv_name + "__"@;
    if has_prefix(req, p) {
        req.skip(p.len() as int)
    } else {
        req
    }
}

/// The position of the first feature with the given name.
pub open spec fn first_feature(fs: Seq<Feature>, name: Seq<char>) -> Option<int>
    decreases fs.len(),
{
    if fs.len() == 0 {
        None
    } else {
        match first_feature(fs.drop_last(), name) {
            Some(i) => Some(i),
            None => if fs.last().name@ == name {
                Some(fs.len() - 1)
            } else {
                None
            },
        }
    }
}

/// The positions of the view's features that the requests name, one per
/// request that names one, in the order of the requests.
pub open spec fn matched_positions(fv: FeatureView, reqs: Seq<Seq<char>>) -> Seq<int>
    decreases reqs.len(),
{
    if reqs.len() == 0 {
        Seq::empty()
    } else {
        let rest = matched_positions(fv, reqs.drop_last());
        match first_feature(fv.features@, local_name(fv.name@, reqs.last())) {
            Some(i) => rest.push(i),
            None => rest,
        }
    }
}

/// The projection that a request makes of a view: the view's name, the
/// matched features in order, the plain feature view type, nothing else.
pub open spec fn is_request_projection(p: FeatureViewProjection, fv: FeatureView, pos: Seq<int>) -> bool {
    &&& p.feature_view_name@ == fv.name@
    &&& p.feature_view_name_alias is None
    &&& p.feature_columns@.len() == pos.len()
    &&& forall|j: int| 0 <= j < pos.len() ==> same_feature(#[trigger] p.feature_columns@[j], fv.features@[pos[j]])
    &&& p.join_key_map@ == Map::<String, String>::empty()
    &&& p.timestamp_field is None
    &&& p.date_partition_column is None
    &&& p.created_timestamp_column is None
    &&& p.batch_source is None
    &&& p.stream_source is None
    &&& p.view_type@ == "FeatureView"@
}

/// The views that requests select, in the order of the views: each view
/// with at least one matched feature, with its matched positions.
pub open spec fn selected_views(fvs: Seq<FeatureView>, reqs: Seq<Seq<char>>) -> Seq<(FeatureView, Seq<int>)>
    decreases fvs.len(),
{
    if fvs.len() == 0 {
        Seq::empty()
    } else {
        let rest = selected_views(fvs.drop_last(), reqs);
        let pos = matched_positions(fvs.last(), reqs);
        if pos.len() > 0 {
            rest.push((fvs.last(), pos))
        } else {
            rest
        }
    }
}

/// The request without a leading prefix, or the whole request.
pub(crate) fn local_feature_name(fv_name: &str, req: &str) -> (r: String)
    ensures
        r@ == local_name(fv_name@, req@),
{
    let mut p = String::from_str(fv_name);
    p.append("__");
    if starts_with(req, p.as_str()) {
        let cs = chars_of(req);
        let plen = chars_of(p.as_str()).len();
        let mut rest: Vec<char> = Vec::new();
        let mut i: usize = plen;
        while i < cs.len()
            invariant
                plen <= i <= cs@.len(),
                plen == p@.len(),
                cs@ == req@,
                rest@ == cs@.subrange(plen as int, i as int),
            decreases cs.len() - i,
        {
            rest.push(cs[i]);
            i = i + 1;
            proof {
                assert(cs@.subrange(plen as int, i as int) =~= cs@.subrange(plen as int, i - 1).push(cs@[i - 1]));
            }
        }
        proof {
            assert(rest@ =~= req@.skip(p@.len() as int));
        }
        string_from_chars(rest.as_slice())
    } else {
        String::from_str(req)
    }
}

/// The position of the first feature with the given name.
fn find_feature(fs: &Vec<Feature>, name: &str) -> (r: Option<usize>)
    ensures
        match (r, first_feature(fs@, name@)) {
            (Some(i), Some(j)) => i == j,
            (None, None) => true,
            _ => false,
        },
{
    let n = fs.len();
    let mut i: usize = 0;
    while i < n
        invariant
            n == fs@.len(),
            i <= n,
            first_feature(fs@.take(i as int), name@) is None,
        decreases n - i,
    {
        proof {
            assert(fs@.take(i + 1).drop_last() =~= fs@.take(i as int));
        }
        if crate::strings::str_eq(fs[i].name.as_str(), name) {
            proof {
                lemma_first_feature_prefix(fs@, name@, i as int);
            }
            return Some(i);
        }
        i = i + 1;
    }
    proof {
        assert(fs@.take(n as int) =~= fs@);
    }
    None
}

/// The first match within a prefix that has one is the first match.
proof fn lemma_first_feature_prefix(fs: Seq<Feature>, name: Seq<char>, i: int)
    requires
        0 <= i < fs.len(),
        first_feature(fs.take(i), name) is None,
        fs[i].name@ == name,
    ensures
        first_feature(fs, name) == Some(i),
    decreases fs.len(),
{
    assert(fs.take(i + 1).drop_last() =~= fs.take(i));
    assert(first_feature(fs.take(i + 1), name) == Some(i));
    if fs.len() > i + 1 {
        lemma_first_feature_extend(fs, name, i + 1);
    } else {
        assert(fs.take(i + 1) =~= fs);
    }
}

/// A match in a prefix stays the first match in the whole.
proof fn lemma_first_feature_extend(fs: Seq<Feature>, name: Seq<char>, k: int)
    requires
        0 < k <= fs.len(),
        first_feature(fs.take(k), name) is Some,
    ensures
        first_feature(fs, name) == first_feature(fs.take(k), name),
    decreases fs.len() - k,
{
    if k < fs.len() {
        assert(fs.take(k + 1).drop_last() =~= fs.take(k));
        lemma_first_feature_extend(fs, name, k + 1);
    } else {
        assert(fs.take(k) =~= fs);
    }
}

/// The features of a view that the requests name, copied, in the order of
/// the requests.
fn matched_features(fv: &FeatureView, requested: &Vec<String>) -> (r: Vec<Feature>)
    ensures
        r@.len() == matched_positions(*fv, views(requested@)).len(),
        forall|j: int|
            0 <= j < r@.len() ==> same_feature(
                #[trigger] r@[j],
                fv.features@[matched_positions(*fv, views(requested@))[j]],
            ),
        forall|j: int|
            0 <= j < matched_positions(*fv, views(requested@)).len() ==> 0 <= #[trigger] matched_positions(
                *fv,
                views(requested@),
            )[j] < fv.features@.len(),
{
    let n = requested.len();
    let mut out: Vec<Feature> = Vec::new();
    let mut i: usize = 0;
    while i < n
        invariant
            n == requested@.len(),
            i <= n,
            out@.len() == matched_positions(*fv, views(requested@).take(i as int)).len(),
            forall|j: int|
                0 <= j < out@.len() ==> same_feature(
                    #[trigger] out@[j],
                    fv.features@[matched_positions(*fv, views(requested@).take(i as int))[j]],
                ),
            forall|j: int|
                0 <= j < matched_positions(*fv, views(requested@).take(i as int)).len() ==> 0
                    <= #[trigger] matched_positions(*fv, views(requested@).take(i as int))[j] < fv.features@.len(),
        decreases n - i,
    {
        let local = local_feature_name(fv.name.as_str(), requested[i].as_str());
        let found = find_feature(&fv.features, local.as_str());
        proof {
            let t = views(requested@).take(i + 1);
            assert(t.drop_last() =~= views(requested@).take(i as int));
            assert(t.last() == requested@[i as int]@);
        }
        match found {
            Some(k) => {
                proof {
                    lemma_first_feature_bound(fv.features@, local@);
                }
                out.push(copy_feature(&fv.features[k]));
            },
            None => {},
        }
        i = i + 1;
    }
    proof {
        assert(views(requested@).take(n as int) =~= views(requested@));
    }
    out
}

/// A first match lies within the features.
proof fn lemma_first_feature_bound(fs: Seq<Feature>, name: Seq<char>)
    ensures
        first_feature(fs, name) matches Some(i) ==> 0 <= i < fs.len() && fs[i].name@ == name,
    decreases fs.len(),
{
    if fs.len() > 0 {
        lemma_first_feature_bound(fs.drop_last(), name);
    }
}

/// The views and projections that a read request names by feature: each
/// view in order that has a feature named by a request (as `{view}__{name}`
/// or as the bare name), projected onto the named features.
pub fn match_requested_features(fvs: Vec<FeatureView>, requested: &Vec<String>) -> (r: Vec<FeatureViewWithProjection>)
    ensures
        r@.len() == selected_views(fvs@, views(requested@)).len(),
        forall|k: int|
            0 <= k < r@.len() ==> {
                let sel = selected_views(fvs@, views(requested@))[k];
                &&& (#[trigger] r@[k]).feature_view == sel.0
                &&& is_request_projection(r@[k].projection, sel.0, sel.1)
            },
{
    let ghost all = fvs@;
    let mut rest = fvs;
    let n = rest.len();
    let mut out: Vec<FeatureViewWithProjection> = Vec::new();
    let mut i: usize = 0;
    while i < n
        invariant
            n == all.len(),
            i <= n,
            rest@ == all.skip(i as int),
            out@.len() == selected_views(all.take(i as int), views(requested@)).len(),
            forall|k: int|
                0 <= k < out@.len() ==> {
                    let sel = selected_views(all.take(i as int), views(requested@))[k];
                    &&& (#[trigger] out@[k]).feature_view == sel.0
                    &&& is_request_projection(out@[k].projection, sel.0, sel.1)
                },
        decreases n - i,
    {
        let fv = rest.remove(0);
        proof {
            assert(fv == all[i as int]);
            assert(rest@ =~= all.skip(i + 1));
            assert(all.take(i + 1).drop_last() =~= all.take(i as int));
            assert(all.take(i + 1).last() == all[i as int]);
        }
        let matched = matched_features(&fv, requested);
        if matched.len() > 0 {
            let proj = FeatureViewProjection {
                feature_view_name: fv.name.clone(),
                feature_view_name_alias: None,
                feature_columns: matched,
                join_key_map: std::collections::HashMap::new(),
                timestamp_field: None,
                date_partition_column: None,
                created_timestamp_column: None,
                batch_source: None,
                stream_source: None,
                view_type: String::from_str("FeatureView"),
            };
            proof {
                reveal_strlit("FeatureView");
            }
            out.push(FeatureViewWithProjection { feature_view: fv, projection: proj });
        }
        i = i + 1;
    }
    proof {
        assert(all.take(n as int) =~= all);
    }
    out
}

// ---------------------------------------------------------------------------
// Answers
// ---------------------------------------------------------------------------

/// One feature value of a read's answer: the column name, the stored bytes
/// as JSON text (none when empty, missing or not JSON), the printed status,
/// and the event time as RFC 3339 text.
#[derive(Debug, Clone)]
pub struct FeatureValueRow {
    pub feature_name: String,
    pub value: Option<Vec<u8>>,
    pub status: String,
    pub event_timestamp: Option<String>,
}

/// Whether `serde_json::from_slice::<serde_json::Value>` reads the bytes as
/// a JSON value.
pub uninterp spec fn json_value_parses(bytes: Seq<u8>) -> bool;

/// Calls `serde_json::from_slice::<serde_json::Value>` and tells whether the
/// bytes hold one JSON value.
#[verifier::external_body]
fn is_json_value(bytes: &[u8]) -> (r: bool)
    ensures
        r == json_value_parses(bytes@),
{
    serde_json::from_slice::<serde_json::Value>(bytes).is_ok()
}

/// The event time of column `i` of a result, if it has one.
pub open spec fn event_time_at(fv: crate::online::FeatureVector, i: int) -> Option<UtcDateTime> {
    if i < fv.event_timestamps@.len() {
        fv.event_timestamps@[i]
    } else {
        None
    }
}

/// The answer row of column `i` of a result.
pub open spec fn is_answer_row(row: FeatureValueRow, name: Seq<char>, fv: crate::online::FeatureVector, i: int) -> bool {
    &&& row.feature_name@ == name
    &&& match row.value {
        Some(v) => i < fv.values@.len() && fv.values@[i]@.len() > 0 && json_value_parses(fv.values@[i]@) && v@
            == fv.values@[i]@,
        None => !(i < fv.values@.len() && fv.values@[i]@.len() > 0 && json_value_parses(fv.values@[i]@)),
    }
    &&& row.status@ == (if i < fv.statuses@.len() {
        field_status_name(fv.statuses@[i])
    } else {
        "INVALID"@
    })
    &&& match (row.event_timestamp, event_time_at(fv, i)) {
        (Some(t), Some(d)) => t@ == rfc3339_text(d),
        (None, None) => true,
        _ => false,
    }
}

/// The answer row of column `i` of a result.
fn answer_row(name: &String, fv: &crate::online::FeatureVector, i: usize) -> (r: FeatureValueRow)
    ensures
        is_answer_row(r, name@, *fv, i as int),
{
    let value = if i < fv.values.len() && fv.values[i].len() > 0 && is_json_value(fv.values[i].as_slice()) {
        let c = fv.values[i].clone();
        assert(c@ =~= fv.values@[i as int]@);
        Some(c)
    } else {
        None
    };
    let status = if i < fv.statuses.len() {
        String::from_str(fv.statuses[i].name())
    } else {
        String::from_str("INVALID")
    };
    proof {
        reveal_strlit("INVALID");
    }
    let event_timestamp = if i < fv.event_timestamps.len() {
        match &fv.event_timestamps[i] {
            Some(d) => Some(format_rfc3339(d)),
            None => None,
        }
    } else {
        None
    };
    FeatureValueRow { feature_name: name.clone(), value, status, event_timestamp }
}

/// The rows of a read's answer: for each result in order, one row per
/// column name, in order.
pub fn answer_rows(response: &OnlineReadResponse) -> (r: Vec<FeatureValueRow>)
    ensures
        r@.len() == response.results@.len() * response.metadata.feature_names@.len(),
        forall|a: int, b: int|
            0 <= a < response.results@.len() && 0 <= b < response.metadata.feature_names@.len() ==> is_answer_row(
                #[trigger] r@[a * response.metadata.feature_names@.len() + b],
                response.metadata.feature_names@[b]@,
                response.results@[a],
                b,
            ),
{
    let names = &response.metadata.feature_names;
    let m = names.len();
    let n = response.results.len();
    let mut out: Vec<FeatureValueRow> = Vec::new();
    let mut a: usize = 0;
    while a < n
        invariant
            n == response.results@.len(),
            m == names@.len(),
            names == response.metadata.feature_names,
            a <= n,
            out@.len() == a * m,
            forall|x: int, y: int|
                0 <= x < a && 0 <= y < m ==> is_answer_row(
                    #[trigger] out@[x * m + y],
                    names@[y]@,
                    response.results@[x],
                    y,
                ),
        decreases n - a,
    {
        let mut b: usize = 0;
        let ghost base = out@;
        proof {
            assert(out@.len() == a * m);
        }
        while b < m
            invariant
                n == response.results@.len(),
                m == names@.len(),
                a < n,
                b <= m,
                base.len() == a * m,
                out@.len() == a * m + b,
                out@.take(base.len() as int) == base,
                forall|y: int| 0 <= y < b ==> is_answer_row(
                    #[trigger] out@[a * m + y],
                    names@[y]@,
                    response.results@[a as int],
                    y,
                ),
            decreases m - b,
        {
            let row = answer_row(&names[b], &response.results[a], b);
            let ghost o0 = out@;
            out.push(row);
            proof {
                assert(out@.take(base.len() as int) =~= o0.take(base.len() as int));
            }
            b = b + 1;
        }
        proof {
            assert((a + 1) * m == a * m + m) by (nonlinear_arith);
            assert forall|x: int, y: int| 0 <= x < a + 1 && 0 <= y < m implies is_answer_row(
                #[trigger] out@[x * m + y],
                names@[y]@,
                response.results@[x],
                y,
            ) by {
                if x < a {
                    assert(x * m + y < a * m) by (nonlinear_arith)
                        requires
                            x < a,
                            y < m,
                    ;
                    assert(out@[x * m + y] == base[x * m + y]);
                }
            }
        }
        a = a + 1;
    }
    out
}

/// The answer to a push: one ingested record, or one failed with the
/// store's error.
#[derive(Debug, Clone)]
pub struct PushFeaturesResponseJson {
    pub ingested: usize,
    pub failed: usize,
    pub errors: Vec<String>,
}

/// The answer to a push, from the outcome of the write.
pub fn push_response(outcome: Result<(), String>) -> (r: PushFeaturesResponseJson)
    ensures
        outcome is Ok ==> r.ingested == 1 && r.failed == 0 && r.errors@.len() == 0,
        outcome matches Err(e) ==> r.ingested == 0 && r.failed == 1 && r.errors@.len() == 1 && r.errors@[0] == e,
{
    match outcome {
        Ok(()) => PushFeaturesResponseJson { ingested: 1, failed: 0, errors: Vec::new() },
        Err(e) => {
            let mut errors: Vec<String> = Vec::new();
            errors.push(e);
            PushFeaturesResponseJson { ingested: 0, failed: 1, errors }
        },
    }
}

/// The entity key of a push: the given join keys, then the same names
/// again each with its own text as value.
pub open spec fn is_push_entity_key(ek: EntityKey, keys: Seq<Seq<char>>) -> bool {
    &&& views(ek.join_keys@) == keys + keys
    &&& ek.entity_values@.map_values(|v: Vec<u8>| v@) == keys.map_values(|k: Seq<char>| vstd::utf8::encode_utf8(k))
    &&& ek.value_types@.len() == 0
}

/// The entity key that a push builds from its list of entity key strings.
pub fn push_entity_key(keys: &Vec<String>) -> (r: EntityKey)
    ensures
        is_push_entity_key(r, views(keys@)),
{
    let mut ek = EntityKey::new(crate::strings::clone_strings(keys));
    let n = keys.len();
    let mut i: usize = 0;
    while i < n
        invariant
            n == keys@.len(),
            i <= n,
            views(ek.join_keys@) == views(keys@) + views(keys@).take(i as int),
            ek.entity_values@.map_values(|v: Vec<u8>| v@) == views(keys@).take(i as int).map_values(
                |k: Seq<char>| vstd::utf8::encode_utf8(k),
            ),
            ek.value_types@.len() == 0,
        decreases n - i,
    {
        let ghost j0 = ek.join_keys@;
        let ghost v0 = ek.entity_values@;
        ek.join_keys.push(keys[i].clone());
        ek.entity_values.push(vstd::slice::slice_to_vec(keys[i].as_str().as_bytes()));
        i = i + 1;
        proof {
            assert(views(ek.join_keys@) =~= views(j0).push(keys@[i - 1]@));
            assert(views(keys@).take(i as int) =~= views(keys@).take(i - 1).push(keys@[i - 1]@));
            assert(ek.entity_values@.map_values(|v: Vec<u8>| v@) =~= v0.map_values(|v: Vec<u8>| v@).push(
                vstd::utf8::encode_utf8(keys@[i - 1]@),
            ));
            assert(views(keys@).take(i as int).map_values(|k: Seq<char>| vstd::utf8::encode_utf8(k))
                =~= views(keys@).take(i - 1).map_values(|k: Seq<char>| vstd::utf8::encode_utf8(k)).push(
                vstd::utf8::encode_utf8(keys@[i - 1]@),
            ));
        }
    }
    proof {
        assert(views(keys@).take(n as int) =~= views(keys@));
    }
    ek
}

/// The event time of a push: the given time when it reads as RFC 3339, the
/// current time otherwise.
pub fn push_event_time(given: &Option<String>) -> (r: UtcDateTime)
    ensures
        match given {
            Some(t) => match rfc3339_instant(t@) {
                Some(d) => r == d,
                None => true,
            },
            None => true,
        },
{
    match given {
        Some(t) => match parse_rfc3339(t.as_str()) {
            Some(d) => d,
            None => utc_now(),
        },
        None => utc_now(),
    }
}

} // verus!
