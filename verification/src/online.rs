//! Online stores: the shape of a read's answer, the hex form of entity keys,
//! and what the SQLite and Redis stores send to their databases and make of
//! what comes back. Talking to the databases is up to the caller.
use vstd::prelude::*;

use crate::entity_key::{serialize_entity_key_v3, serialized_entity_key};
use crate::offline::quoted;
use crate::strings::{decimal, join_spec, join_strings, views};
use crate::time::{format_millis, millis_text, parse_rfc3339, rfc3339_instant, UtcDateTime};
use crate::types::{EntityKey, Feature, FeatureViewWithProjection, OnlineWriteRecord};

verus! {

// ---------------------------------------------------------------------------
// Read results
// ---------------------------------------------------------------------------

/// What became of one feature value in a read.
#[derive(Debug, Clone, Copy, PartialEq, Eq, Structural)]
pub enum FieldStatus {
    Invalid,
    Present,
    NullValue,
    NotFound,
    OutsideMaxAge,
}

/// The wire code of a status: its position in the list, from 0.
pub open spec fn field_status_code(s: FieldStatus) -> i32 {
    match s {
        FieldStatus::Invalid => 0,
        FieldStatus::Present => 1,
        FieldStatus::NullValue => 2,
        FieldStatus::NotFound => 3,
        FieldStatus::OutsideMaxAge => 4,
    }
}

/// The status that a cached code stands for: codes 0 to 3 by position, and
/// `NotFound` for any other code.
pub open spec fn cached_status(c: i32) -> FieldStatus {
    if c == 0 {
        FieldStatus::Invalid
    } else if c == 1 {
        FieldStatus::Present
    } else if c == 2 {
        FieldStatus::NullValue
    } else {
        FieldStatus::NotFound
    }
}

/// The name of a status as it is printed in answers.
pub open spec fn field_status_name(s: FieldStatus) -> Seq<char> {
    match s {
        FieldStatus::Invalid => "Invalid"@,
        FieldStatus::Present => "Present"@,
        FieldStatus::NullValue => "NullValue"@,
        FieldStatus::NotFound => "NotFound"@,
        FieldStatus::OutsideMaxAge => "OutsideMaxAge"@,
    }
}

impl FieldStatus {
    /// The wire code of the status.
    pub fn code(&self) -> (r: i32)
        ensures
            r == field_status_code(*self),
    {
        match self {
            FieldStatus::Invalid => 0,
            FieldStatus::Present => 1,
            FieldStatus::NullValue => 2,
            FieldStatus::NotFound => 3,
            FieldStatus::OutsideMaxAge => 4,
        }
    }

    /// The status of a cached code (codes past 3 read as `NotFound`).
    pub fn from_cached_code(c: i32) -> (r: FieldStatus)
        ensures
            r == cached_status(c),
    {
        if c == 0 {
            FieldStatus::Invalid
        } else if c == 1 {
            FieldStatus::Present
        } else if c == 2 {
            FieldStatus::NullValue
        } else {
            FieldStatus::NotFound
        }
    }

    /// The printed name of the status.
    pub fn name(&self) -> (r: &'static str)
        ensures
            r@ == field_status_name(*self),
    {
        proof {
            reveal_strlit("Invalid");
            reveal_strlit("Present");
            reveal_strlit("NullValue");
            reveal_strlit("NotFound");
            reveal_strlit("OutsideMaxAge");
        }
        match self {
            FieldStatus::Invalid => "Invalid",
            FieldStatus::Present => "Present",
            FieldStatus::NullValue => "NullValue",
            FieldStatus::NotFound => "NotFound",
            FieldStatus::OutsideMaxAge => "OutsideMaxAge",
        }
    }
}

/// The values, statuses and event times of the features read for one
/// entity of one feature view; the three vectors run in parallel.
#[derive(Debug, Clone)]
pub struct FeatureVector {
    pub values: Vec<Vec<u8>>,
    pub statuses: Vec<FieldStatus>,
    pub event_timestamps: Vec<Option<UtcDateTime>>,
}

/// The names of the columns of a read, one per value of each result.
#[derive(Debug, Clone)]
pub struct OnlineResponseMetadata {
    pub feature_names: Vec<String>,
}

/// The answer to an online read: the column names and one feature vector
/// per feature view and entity.
#[derive(Debug, Clone)]
pub struct OnlineReadResponse {
    pub metadata: OnlineResponseMetadata,
    pub results: Vec<FeatureVector>,
}

/// The contents of byte vectors.
pub open spec fn byte_rows(v: Seq<Vec<u8>>) -> Seq<Seq<u8>> {
    v.map_values(|b: Vec<u8>| b@)
}

/// The contents of optional byte vectors.
pub open spec fn opt_byte_rows(v: Seq<Option<Vec<u8>>>) -> Seq<Option<Seq<u8>>> {
    v.map_values(|o: Option<Vec<u8>>| match o {
        Some(b) => Some(b@),
        None => None,
    })
}

/// The vector of a stored row: each stored value is present, each missing
/// one is a null value (read as empty bytes), and all carry the row's event
/// time.
pub open spec fn is_found_vector(r: FeatureVector, cols: Seq<Option<Seq<u8>>>, ts: Option<UtcDateTime>) -> bool {
    &&& r.values@.len() == cols.len()
    &&& r.statuses@.len() == cols.len()
    &&& r.event_timestamps@.len() == cols.len()
    &&& forall|i: int| 0 <= i < cols.len() ==> (#[trigger] r.event_timestamps@[i]) == ts
    &&& forall|i: int| 0 <= i < cols.len() ==> found_value(#[trigger] r.values@[i], r.statuses@[i], cols[i])
}

/// A value read for a column: the stored bytes, present; or, where the
/// column holds nothing, empty bytes and a null value.
pub open spec fn found_value(v: Vec<u8>, s: FieldStatus, c: Option<Seq<u8>>) -> bool {
    match c {
        Some(b) => v@ == b && s == FieldStatus::Present,
        None => v@.len() == 0 && s == FieldStatus::NullValue,
    }
}

/// The vector of an entity with no stored row: `n` empty values, all not
/// found, with no event time.
pub open spec fn is_missing_vector(r: FeatureVector, n: nat) -> bool {
    &&& r.values@.len() == n
    &&& r.statuses@.len() == n
    &&& r.event_timestamps@.len() == n
    &&& forall|i: int| 0 <= i < n ==> {
        &&& (#[trigger] r.values@[i])@.len() == 0
        &&& r.statuses@[i] == FieldStatus::NotFound
        &&& r.event_timestamps@[i] is None
    }
}

/// The vector of a stored row with the given values and event time.
pub fn found_vector(columns: Vec<Option<Vec<u8>>>, ts: Option<UtcDateTime>) -> (r: FeatureVector)
    ensures
        is_found_vector(r, opt_byte_rows(columns@), ts),
{
    let n = columns.len();
    let mut values: Vec<Vec<u8>> = Vec::new();
    let mut statuses: Vec<FieldStatus> = Vec::new();
    let mut stamps: Vec<Option<UtcDateTime>> = Vec::new();
    let ghost cols = opt_byte_rows(columns@);
    let mut i: usize = 0;
    while i < n
        invariant
            n == columns@.len(),
            cols == opt_byte_rows(columns@),
            i <= n,
            values@.len() == i,
            statuses@.len() == i,
            stamps@.len() == i,
            forall|j: int| 0 <= j < i ==> (#[trigger] stamps@[j]) == ts,
            forall|j: int| 0 <= j < i ==> found_value(#[trigger] values@[j], statuses@[j], cols[j]),
        decreases n - i,
    {
        match &columns[i] {
            Some(b) => {
                let c = b.clone();
                assert(c@ =~= b@);
                values.push(c);
                statuses.push(FieldStatus::Present);
            },
            None => {
                values.push(Vec::new());
                statuses.push(FieldStatus::NullValue);
            },
        }
        stamps.push(ts);
        proof {
            assert(cols[i as int] == match columns@[i as int] {
                Some(b) => Some(b@),
                None => None::<Seq<u8>>,
            });
            assert(found_value(values@[i as int], statuses@[i as int], cols[i as int]));
        }
        i = i + 1;
    }
    FeatureVector { values, statuses, event_timestamps: stamps }
}

/// The vector of an entity with no stored row, for `n` features.
pub fn missing_vector(n: usize) -> (r: FeatureVector)
    ensures
        is_missing_vector(r, n as nat),
{
    let mut values: Vec<Vec<u8>> = Vec::new();
    let mut statuses: Vec<FieldStatus> = Vec::new();
    let mut stamps: Vec<Option<UtcDateTime>> = Vec::new();
    let mut i: usize = 0;
    while i < n
        invariant
            i <= n,
            values@.len() == i,
            statuses@.len() == i,
            stamps@.len() == i,
            forall|j: int| 0 <= j < i ==> (#[trigger] values@[j])@.len() == 0,
            forall|j: int| 0 <= j < i ==> (#[trigger] statuses@[j]) == FieldStatus::NotFound,
            forall|j: int| 0 <= j < i ==> (#[trigger] stamps@[j]) is None,
        decreases n - i,
    {
        values.push(Vec::new());
        statuses.push(FieldStatus::NotFound);
        stamps.push(None);
        i = i + 1;
    }
    FeatureVector { values, statuses, event_timestamps: stamps }
}

/// The column names of a feature view's projection in a read: the view's
/// name, two underscores, and the feature's name.
pub open spec fn fv_column_names(fvp: FeatureViewWithProjection) -> Seq<Seq<char>> {
    fvp.projection.feature_columns@.map_values(|f: Feature| fvp.feature_view.name@ + "__"@ + f.name@)
}

/// The names, `n` times over.
pub open spec fn repeat_names(names: Seq<Seq<char>>, n: nat) -> Seq<Seq<char>>
    decreases n,
{
    if n == 0 {
        Seq::empty()
    } else {
        repeat_names(names, (n - 1) as nat) + names
    }
}

/// The column names of a read of `n` entities: for each feature view in
/// turn, its column names once per entity.
pub open spec fn read_names(fvs: Seq<FeatureViewWithProjection>, n: nat) -> Seq<Seq<char>>
    decreases fvs.len(),
{
    if fvs.len() == 0 {
        Seq::empty()
    } else {
        read_names(fvs.drop_last(), n) + repeat_names(fv_column_names(fvs.last()), n)
    }
}

/// The names of the features of a projection.
pub fn projection_feature_names(fvp: &FeatureViewWithProjection) -> (r: Vec<String>)
    ensures
        views(r@) == fvp.projection.feature_columns@.map_values(|f: Feature| f.name@),
{
    let cols = &fvp.projection.feature_columns;
    let n = cols.len();
    let mut out: Vec<String> = Vec::new();
    let mut i: usize = 0;
    while i < n
        invariant
            n == cols@.len(),
            i <= n,
            views(out@) == cols@.take(i as int).map_values(|f: Feature| f.name@),
        decreases n - i,
    {
        let ghost before = out@;
        out.push(cols[i].name.clone());
        i = i + 1;
        proof {
            assert(views(out@) =~= views(before).push(cols@[i - 1].name@));
            assert(cols@.take(i as int).map_values(|f: Feature| f.name@) =~= cols@.take(i - 1).map_values(
                |f: Feature| f.name@,
            ).push(cols@[i - 1].name@));
        }
    }
    proof {
        assert(cols@.take(n as int) =~= cols@);
    }
    out
}

/// The column names of a feature view's projection.
pub fn column_names(fvp: &FeatureViewWithProjection) -> (r: Vec<String>)
    ensures
        views(r@) == fv_column_names(*fvp),
{
    let cols = &fvp.projection.feature_columns;
    let fv_name = fvp.feature_view.name.as_str();
    let n = cols.len();
    let mut out: Vec<String> = Vec::new();
    let mut i: usize = 0;
    while i < n
        invariant
            n == cols@.len(),
            fv_name@ == fvp.feature_view.name@,
            i <= n,
            views(out@) == cols@.take(i as int).map_values(|f: Feature| fv_name@ + "__"@ + f.name@),
        decreases n - i,
    {
        let mut c = String::from_str(fv_name);
        c.append("__");
        c.append(cols[i].name.as_str());
        let ghost before = out@;
        out.push(c);
        i = i + 1;
        proof {
            assert(views(out@) =~= views(before).push(c@));
            assert(cols@.take(i as int).map_values(|f: Feature| fv_name@ + "__"@ + f.name@) =~= cols@.take(
                i - 1,
            ).map_values(|f: Feature| fv_name@ + "__"@ + f.name@).push(fv_name@ + "__"@ + cols@[i - 1].name@));
        }
    }
    proof {
        assert(cols@.take(n as int) =~= cols@);
    }
    out
}

fn flatten_views(per_view: Vec<Vec<FeatureVector>>, entity_count: usize) -> (r: Vec<FeatureVector>)
    requires
        forall|i: int| 0 <= i < per_view@.len() ==> (#[trigger] per_view@[i])@.len() == entity_count,
    ensures
        r@ == view_major(per_view@),
        r@.len() == per_view@.len() * entity_count,
{
    let ghost all = per_view@;
    let ghost vs = all.map_values(|v: Vec<FeatureVector>| v@);
    let mut rest = per_view;
    let mut out: Vec<FeatureVector> = Vec::new();
    let n = rest.len();
    let mut i: usize = 0;
    while i < n
        invariant
            n == all.len(),
            vs == all.map_values(|v: Vec<FeatureVector>| v@),
            i <= n,
            rest@ == all.skip(i as int),
            out@ == vs.take(i as int).flatten_alt(),
            out@.len() == i * entity_count,
            forall|k: int| 0 <= k < all.len() ==> (#[trigger] all[k])@.len() == entity_count,
        decreases n - i,
    {
        let mut v = rest.remove(0);
        proof {
            assert(v == all[i as int]);
            assert(vs.take(i + 1).drop_last() =~= vs.take(i as int));
            assert(vs.take(i + 1).last() == v@);
            assert(rest@ =~= all.skip(i + 1));
        }
        out.append(&mut v);
        proof {
            assert((i + 1) * entity_count == i * entity_count + entity_count) by (nonlinear_arith);
        }
        i = i + 1;
    }
    proof {
        assert(vs.take(n as int) =~= vs);
        vs.lemma_flatten_and_flatten_alt_are_equivalent();
    }
    out
}

/// The vectors of a read laid out view by view: all entities of the first
/// feature view, then all of the second, and so on.
pub open spec fn view_major(per_view: Seq<Vec<FeatureVector>>) -> Seq<FeatureVector> {
    per_view.map_values(|v: Vec<FeatureVector>| v@).flatten()
}

/// Puts a read's answer together from the vectors of each feature view (one
/// per entity, in the order of the entities): the vectors view by view,
/// under the column names of each view repeated once per entity.
pub fn assemble_online_read(
    features: &Vec<FeatureViewWithProjection>,
    entity_count: usize,
    per_view: Vec<Vec<FeatureVector>>,
) -> (r: OnlineReadResponse)
    requires
        per_view@.len() == features@.len(),
        forall|i: int| 0 <= i < per_view@.len() ==> (#[trigger] per_view@[i])@.len() == entity_count,
    ensures
        views(r.metadata.feature_names@) == read_names(features@, entity_count as nat),
        r.results@ == view_major(per_view@),
        r.results@.len() == features@.len() * entity_count,
{
    let mut names: Vec<String> = Vec::new();
    let n = features.len();
    let mut i: usize = 0;
    while i < n
        invariant
            n == features@.len(),
            i <= n,
            views(names@) == read_names(features@.take(i as int), entity_count as nat),
        decreases n - i,
    {
        let cols = column_names(&features[i]);
        let mut k: usize = 0;
        let ghost base = views(names@);
        while k < entity_count
            invariant
                k <= entity_count,
                views(cols@) == fv_column_names(features@[i as int]),
                views(names@) == base + repeat_names(views(cols@), k as nat),
            decreases entity_count - k,
        {
            let m = cols.len();
            let mut j: usize = 0;
            let ghost mid = views(names@);
            while j < m
                invariant
                    m == cols@.len(),
                    j <= m,
                    views(names@) == mid + views(cols@).take(j as int),
                decreases m - j,
            {
                let ghost b2 = names@;
                names.push(cols[j].clone());
                j = j + 1;
                proof {
                    assert(views(names@) =~= views(b2).push(cols@[j - 1]@));
                    assert(views(cols@).take(j as int) =~= views(cols@).take(j - 1).push(cols@[j - 1]@));
                }
            }
            k = k + 1;
            proof {
                assert(views(cols@).take(m as int) =~= views(cols@));
                assert(repeat_names(views(cols@), k as nat) == repeat_names(views(cols@), (k - 1) as nat)
                    + views(cols@));
                assert(views(names@) =~= base + repeat_names(views(cols@), k as nat));
            }
        }
        i = i + 1;
        proof {
            assert(features@.take(i as int).drop_last() =~= features@.take(i - 1));
            assert(features@.take(i as int).last() == features@[i - 1]);
        }
    }
    proof {
        assert(features@.take(n as int) =~= features@);
    }
    let results = flatten_views(per_view, entity_count);
    OnlineReadResponse { metadata: OnlineResponseMetadata { feature_names: names }, results }
}

// ---------------------------------------------------------------------------
// Hex form of entity keys
// ---------------------------------------------------------------------------

/// The lower-case hex digit of `n < 16`.
pub open spec fn hex_digit(n: int) -> char {
    if n < 10 {
        (48 + n) as char
    } else {
        (87 + n) as char
    }
}

/// Bytes in lower-case hex, two digits per byte.
pub open spec fn hex_spec(b: Seq<u8>) -> Seq<char>
    decreases b.len(),
{
    if b.len() == 0 {
        Seq::empty()
    } else {
        hex_spec(b.drop_last()) + seq![hex_digit((b.last() / 16) as int), hex_digit((b.last() % 16) as int)]
    }
}

/// The value of a hex digit byte, either case.
pub open spec fn hex_value(c: u8) -> Option<int> {
    if 48 <= c <= 57 {
        Some(c - 48)
    } else if 65 <= c <= 70 {
        Some(c - 55)
    } else if 97 <= c <= 102 {
        Some(c - 87)
    } else {
        None
    }
}

/// The bytes written in hex text (as bytes): none unless the text has an
/// even length and only hex digits.
pub open spec fn hex_decoded(b: Seq<u8>) -> Option<Seq<u8>>
    decreases b.len(),
{
    if b.len() % 2 != 0 {
        None
    } else if b.len() == 0 {
        Some(Seq::empty())
    } else {
        match (hex_decoded(b.drop_last().drop_last()), hex_value(b[b.len() - 2]), hex_value(b.last())) {
            (Some(p), Some(h), Some(l)) => Some(p.push((h * 16 + l) as u8)),
            _ => None,
        }
    }
}

/// Calls `hex::encode`: the bytes in lower-case hex.
#[verifier::external_body]
pub(crate) fn hex_encode(data: &[u8]) -> (r: String)
    ensures
        r@ == hex_spec(data@),
{
    hex::encode(data)
}

/// Calls `hex::decode`, which takes either case and refuses an odd length
/// or a byte that is not a hex digit.
#[verifier::external_body]
pub(crate) fn hex_decode(data: &[u8]) -> (r: Option<Vec<u8>>)
    ensures
        match r {
            Some(v) => hex_decoded(data@) == Some(v@),
            None => hex_decoded(data@) is None,
        },
{
    hex::decode(data).ok()
}

/// A hex digit as a byte reads back as its value.
pub proof fn lemma_hex_digit_value(x: int)
    requires
        0 <= x < 16,
    ensures
        hex_value(hex_digit(x) as u8) == Some(x),
        '\0' <= hex_digit(x) <= '\u{7f}',
{
    assert(hex_digit(x) as int == if x < 10 { 48 + x } else { 87 + x });
}

/// The hex form of bytes has two ASCII digits per byte.
pub proof fn lemma_hex_spec_digits(b: Seq<u8>)
    ensures
        hex_spec(b).len() == 2 * b.len(),
        forall|k: int| 0 <= k < b.len() ==> hex_spec(b)[2 * k] == hex_digit((b[k] / 16) as int) && hex_spec(b)[2 * k
            + 1] == hex_digit((b[k] % 16) as int),
        vstd::utf8::is_ascii_chars(hex_spec(b)),
    decreases b.len(),
{
    if b.len() > 0 {
        let p = b.drop_last();
        lemma_hex_spec_digits(p);
        lemma_hex_digit_value((b.last() / 16) as int);
        lemma_hex_digit_value((b.last() % 16) as int);
        let h = hex_spec(b);
        assert forall|k: int| 0 <= k < b.len() implies h[2 * k] == hex_digit((b[k] / 16) as int) && h[2 * k + 1]
            == hex_digit((b[k] % 16) as int) by {
            if k < p.len() {
                assert(b[k] == p[k]);
            }
        }
        assert forall|i: int| 0 <= i < h.len() implies '\0' <= #[trigger] h[i] <= '\u{7f}' by {
            if i < hex_spec(p).len() {
                assert(h[i] == hex_spec(p)[i]);
            }
        }
    }
}

/// Decoding the hex form of bytes (as UTF-8 bytes) gives back the bytes.
pub proof fn lemma_hex_roundtrip(b: Seq<u8>)
    ensures
        hex_decoded(vstd::utf8::encode_utf8(hex_spec(b))) == Some(b),
    decreases b.len(),
{
    lemma_hex_spec_digits(b);
    let h = hex_spec(b);
    let e = vstd::utf8::encode_utf8(h);
    vstd::utf8::is_ascii_chars_encode_utf8(h);
    if b.len() > 0 {
        let p = b.drop_last();
        lemma_hex_roundtrip(p);
        lemma_hex_spec_digits(p);
        let hp = hex_spec(p);
        vstd::utf8::is_ascii_chars_encode_utf8(hp);
        let ep = vstd::utf8::encode_utf8(hp);
        assert forall|i: int| 0 <= i < ep.len() implies e.drop_last().drop_last()[i] == ep[i] by {
            assert(h[i] == hp[i]);
            assert(e[i] == h[i] as u8);
            assert(ep[i] == hp[i] as u8);
        }
        assert(e.drop_last().drop_last() =~= ep);
        let k = p.len() as int;
        assert(h[2 * k] == hex_digit((b[k] / 16) as int));
        assert(h[2 * k + 1] == hex_digit((b[k] % 16) as int));
        assert(e[e.len() - 2] == h[2 * k] as u8);
        assert(e.last() == h[2 * k + 1] as u8);
        lemma_hex_digit_value((b[k] / 16) as int);
        lemma_hex_digit_value((b[k] % 16) as int);
        assert(((b[k] / 16) * 16 + b[k] % 16) as u8 == b[k]);
        assert(p.push(b[k]) =~= b);
    } else {
        assert(e.len() == 0);
    }
}

/// The hex form of an entity key's v3 encoding.
pub open spec fn entity_key_hex(ek: EntityKey) -> Seq<char> {
    hex_spec(serialized_entity_key(ek))
}

/// The hex form of an entity key's v3 encoding, under which both stores
/// keep its row.
pub fn entity_key_to_hex(ek: &EntityKey) -> (r: String)
    ensures
        r@ == entity_key_hex(*ek),
{
    let bytes = serialize_entity_key_v3(ek);
    hex_encode(bytes.as_slice())
}

// ---------------------------------------------------------------------------
// SQLite
// ---------------------------------------------------------------------------

/// The table of a feature view: `__ofs_{project}__{feature view}`.
pub open spec fn sqlite_table(project: Seq<char>, fv: Seq<char>) -> Seq<char> {
    "__ofs_"@ + project + "__"@ + fv
}

/// The column definitions of a feature view's table: the entity key, one
/// BLOB column per feature, and the event time.
pub open spec fn column_defs(cols: Seq<Seq<char>>) -> Seq<Seq<char>> {
    seq!["entity_key TEXT PRIMARY KEY NOT NULL"@] + cols.map_values(|c: Seq<char>| quoted(c) + " BLOB"@) + seq![
        "event_ts TEXT NOT NULL"@,
    ]
}

/// The statement that creates a feature view's table if it is missing.
pub open spec fn create_table_sql(table: Seq<char>, cols: Seq<Seq<char>>) -> Seq<char> {
    "CREATE TABLE IF NOT EXISTS "@ + quoted(table) + " ("@ + join_spec(column_defs(cols), ", "@) + ")"@
}

/// The columns that a read selects: the entity key, the features, and the
/// event time.
pub open spec fn select_columns(cols: Seq<Seq<char>>) -> Seq<char> {
    if cols.len() == 0 {
        "entity_key, event_ts"@
    } else {
        "entity_key, "@ + join_spec(cols.map_values(|c: Seq<char>| quoted(c)), ", "@) + ", event_ts"@
    }
}

/// The statement that reads one entity's row.
pub open spec fn select_row_sql(table: Seq<char>, cols: Seq<Seq<char>>) -> Seq<char> {
    "SELECT "@ + select_columns(cols) + " FROM "@ + quoted(table) + " WHERE entity_key = ?"@
}

/// The placeholders `?2` to `?{n+1}`.
pub open spec fn placeholders(n: nat) -> Seq<Seq<char>> {
    Seq::new(n, |i: int| "?"@ + decimal((i + 2) as nat))
}

/// The statement that writes one entity's row: the key as `?1`, the values
/// as `?2` onward, and the event time last.
pub open spec fn insert_row_sql(table: Seq<char>, cols: Seq<Seq<char>>) -> Seq<char> {
    "INSERT OR REPLACE INTO "@ + quoted(table) + " (entity_key, "@ + join_spec(
        cols.map_values(|c: Seq<char>| quoted(c)),
        ", "@,
    ) + ", event_ts) VALUES (?1, "@ + join_spec(placeholders(cols.len()), ", "@) + ", ?"@ + decimal(
        cols.len() + 2,
    ) + ")"@
}

/// The statement that drops a table.
pub open spec fn drop_table_sql(table: Seq<char>) -> Seq<char> {
    "DROP TABLE IF EXISTS "@ + quoted(table)
}

/// The statement that deletes the rows older than a bound.
pub open spec fn purge_rows_sql(table: Seq<char>) -> Seq<char> {
    "DELETE FROM "@ + quoted(table) + " WHERE event_ts < ?"@
}

/// The statement that lists the store's tables.
pub open spec fn list_tables_sql() -> Seq<char> {
    "SELECT name FROM sqlite_master WHERE type='table' AND name LIKE '__ofs_%'"@
}

fn quote_ident(s: &str) -> (r: String)
    ensures
        r@ == quoted(s@),
{
    let mut r = String::from_str("\"");
    r.append(s);
    r.append("\"");
    proof {
        reveal_strlit("\"");
    }
    r
}

fn quote_all(cols: &Vec<String>) -> (r: Vec<String>)
    ensures
        views(r@) == views(cols@).map_values(|c: Seq<char>| quoted(c)),
{
    let n = cols.len();
    let mut out: Vec<String> = Vec::new();
    let mut i: usize = 0;
    while i < n
        invariant
            n == cols@.len(),
            i <= n,
            views(out@) == views(cols@).take(i as int).map_values(|c: Seq<char>| quoted(c)),
        decreases n - i,
    {
        let q = quote_ident(cols[i].as_str());
        let ghost before = out@;
        out.push(q);
        i = i + 1;
        proof {
            assert(views(out@) =~= views(before).push(q@));
            assert(views(cols@).take(i as int).map_values(|c: Seq<char>| quoted(c)) =~= views(cols@).take(
                i - 1,
            ).map_values(|c: Seq<char>| quoted(c)).push(quoted(cols@[i - 1]@)));
        }
    }
    proof {
        assert(views(cols@).take(n as int) =~= views(cols@));
    }
    out
}

/// The table of a feature view in a project.
pub fn sqlite_table_name(project: &str, fv_name: &str) -> (r: String)
    ensures
        r@ == sqlite_table(project@, fv_name@),
{
    let mut r = String::from_str("__ofs_");
    r.append(project);
    r.append("__");
    r.append(fv_name);
    proof {
        reveal_strlit("__ofs_");
    }
    r
}

/// The statement that creates a table with the given feature columns.
pub fn sqlite_create_table(table: &str, cols: &Vec<String>) -> (r: String)
    ensures
        r@ == create_table_sql(table@, views(cols@)),
{
    let n = cols.len();
    let mut defs: Vec<String> = Vec::new();
    defs.push(String::from_str("entity_key TEXT PRIMARY KEY NOT NULL"));
    let mut i: usize = 0;
    while i < n
        invariant
            n == cols@.len(),
            i <= n,
            views(defs@) == seq!["entity_key TEXT PRIMARY KEY NOT NULL"@] + views(cols@).take(i as int).map_values(
                |c: Seq<char>| quoted(c) + " BLOB"@,
            ),
        decreases n - i,
    {
        let mut d = quote_ident(cols[i].as_str());
        d.append(" BLOB");
        let ghost before = defs@;
        defs.push(d);
        i = i + 1;
        proof {
            assert(views(defs@) =~= views(before).push(d@));
            assert(views(cols@).take(i as int).map_values(|c: Seq<char>| quoted(c) + " BLOB"@) =~= views(
                cols@,
            ).take(i - 1).map_values(|c: Seq<char>| quoted(c) + " BLOB"@).push(quoted(cols@[i - 1]@) + " BLOB"@));
        }
    }
    let ghost before = defs@;
    defs.push(String::from_str("event_ts TEXT NOT NULL"));
    proof {
        assert(views(cols@).take(n as int) =~= views(cols@));
        assert(views(defs@) =~= views(before).push("event_ts TEXT NOT NULL"@));
        assert(views(defs@) =~= column_defs(views(cols@)));
    }
    let mut r = String::from_str("CREATE TABLE IF NOT EXISTS ");
    r.append(quote_ident(table).as_str());
    r.append(" (");
    r.append(join_strings(&defs, ", ").as_str());
    r.append(")");
    r
}

/// The statement that reads one entity's row of the given feature columns.
pub fn sqlite_select_row(table: &str, cols: &Vec<String>) -> (r: String)
    ensures
        r@ == select_row_sql(table@, views(cols@)),
{
    let mut sel = String::new();
    if cols.len() == 0 {
        sel.append("entity_key, event_ts");
    } else {
        sel.append("entity_key, ");
        sel.append(join_strings(&quote_all(cols), ", ").as_str());
        sel.append(", event_ts");
    }
    let mut r = String::from_str("SELECT ");
    r.append(sel.as_str());
    r.append(" FROM ");
    r.append(quote_ident(table).as_str());
    r.append(" WHERE entity_key = ?");
    r
}

/// The statement that writes one entity's row of the given feature columns.
pub fn sqlite_insert_row(table: &str, cols: &Vec<String>) -> (r: String)
    requires
        cols@.len() + 2 <= u64::MAX,
    ensures
        r@ == insert_row_sql(table@, views(cols@)),
{
    let n = cols.len();
    let mut ph: Vec<String> = Vec::new();
    let mut i: usize = 0;
    while i < n
        invariant
            n == cols@.len(),
            n + 2 <= u64::MAX,
            i <= n,
            views(ph@) == placeholders(n as nat).take(i as int),
        decreases n - i,
    {
        let mut p = String::from_str("?");
        let k: u64 = (i as u64) + 2;
        p.append(crate::strings::u64_to_decimal(k).as_str());
        let ghost before = ph@;
        ph.push(p);
        i = i + 1;
        proof {
            reveal_strlit("?");
            assert(views(ph@) =~= views(before).push(p@));
            assert(placeholders(n as nat).take(i as int) =~= placeholders(n as nat).take(i - 1).push(p@));
        }
    }
    proof {
        assert(placeholders(n as nat).take(n as int) =~= placeholders(n as nat));
    }
    let last: u64 = (n as u64) + 2;
    let mut r = String::from_str("INSERT OR REPLACE INTO ");
    r.append(quote_ident(table).as_str());
    r.append(" (entity_key, ");
    r.append(join_strings(&quote_all(cols), ", ").as_str());
    r.append(", event_ts) VALUES (?1, ");
    r.append(join_strings(&ph, ", ").as_str());
    r.append(", ?");
    r.append(crate::strings::u64_to_decimal(last).as_str());
    r.append(")");
    r
}

/// The statement that drops a table.
pub fn sqlite_drop_table(table: &str) -> (r: String)
    ensures
        r@ == drop_table_sql(table@),
{
    let mut r = String::from_str("DROP TABLE IF EXISTS ");
    r.append(quote_ident(table).as_str());
    r
}

/// The statement that deletes a table's rows older than a bound.
pub fn sqlite_purge_rows(table: &str) -> (r: String)
    ensures
        r@ == purge_rows_sql(table@),
{
    let mut r = String::from_str("DELETE FROM ");
    r.append(quote_ident(table).as_str());
    r.append(" WHERE event_ts < ?");
    r
}

/// The statement that lists the store's tables.
pub fn sqlite_list_tables() -> (r: &'static str)
    ensures
        r@ == list_tables_sql(),
{
    "SELECT name FROM sqlite_master WHERE type='table' AND name LIKE '__ofs_%'"
}

/// A row read from a feature view's table: its event time as stored, and
/// the stored value of each feature column asked for (none where NULL).
#[derive(Debug, Clone)]
pub struct SqliteRow {
    pub event_ts: String,
    pub values: Vec<Option<Vec<u8>>>,
}

/// The vector of one entity read from SQLite: with no row, `n` features not
/// found; with a row, its values, under the event time that its stored
/// text reads as (none where it does not read).
pub fn sqlite_row_vector(row: Option<SqliteRow>, n: usize) -> (r: FeatureVector)
    ensures
        match row {
            None => is_missing_vector(r, n as nat),
            Some(row) => is_found_vector(r, opt_byte_rows(row.values@), rfc3339_instant(row.event_ts@)),
        },
{
    match row {
        None => missing_vector(n),
        Some(row) => {
            let ts = parse_rfc3339(row.event_ts.as_str());
            found_vector(row.values, ts)
        },
    }
}

/// What writing one record to SQLite takes: the table, the statement that
/// creates it, the statement that writes the row, and the values to bind
/// (the key's hex form, each feature value in order, the event time).
#[derive(Debug, Clone)]
pub struct SqliteWrite {
    pub table: String,
    pub create_sql: String,
    pub insert_sql: String,
    pub key_hex: String,
    pub values: Vec<Vec<u8>>,
    pub event_ts: String,
}

/// The names of a record's values.
pub open spec fn record_columns(rec: OnlineWriteRecord) -> Seq<Seq<char>> {
    rec.values@.map_values(|p: (String, Vec<u8>)| p.0@)
}

/// The contents of a record's values.
pub open spec fn record_bytes(rec: OnlineWriteRecord) -> Seq<Seq<u8>> {
    rec.values@.map_values(|p: (String, Vec<u8>)| p.1@)
}

/// The SQLite write of a record: nothing for a record without values;
/// otherwise the table of its feature view, a table with one column per
/// value, and a row under the key's hex form with the event time to the
/// millisecond.
pub fn sqlite_write(record: &OnlineWriteRecord, project: &str) -> (r: Option<SqliteWrite>)
    requires
        record.values@.len() + 2 <= u64::MAX,
    ensures
        record.values@.len() == 0 <==> r is None,
        r matches Some(w) ==> {
            let table = sqlite_table(project@, record.feature_view_name@);
            &&& w.table@ == table
            &&& w.create_sql@ == create_table_sql(table, record_columns(*record))
            &&& w.insert_sql@ == insert_row_sql(table, record_columns(*record))
            &&& w.key_hex@ == entity_key_hex(record.entity_key)
            &&& byte_rows(w.values@) == record_bytes(*record)
            &&& w.event_ts@ == millis_text(record.timestamp)
        },
{
    if record.values.len() == 0 {
        return None;
    }
    let table = sqlite_table_name(project, record.feature_view_name.as_str());
    let n = record.values.len();
    let mut cols: Vec<String> = Vec::new();
    let mut vals: Vec<Vec<u8>> = Vec::new();
    let mut i: usize = 0;
    while i < n
        invariant
            n == record.values@.len(),
            i <= n,
            views(cols@) == record_columns(*record).take(i as int),
            byte_rows(vals@) == record_bytes(*record).take(i as int),
        decreases n - i,
    {
        let ghost c0 = cols@;
        let ghost v0 = vals@;
        cols.push(record.values[i].0.clone());
        vals.push(record.values[i].1.clone());
        i = i + 1;
        proof {
            assert(views(cols@) =~= views(c0).push(record.values@[i - 1].0@));
            assert(record_columns(*record).take(i as int) =~= record_columns(*record).take(i - 1).push(
                record.values@[i - 1].0@,
            ));
            assert(byte_rows(vals@) =~= byte_rows(v0).push(record.values@[i - 1].1@));
            assert(record_bytes(*record).take(i as int) =~= record_bytes(*record).take(i - 1).push(
                record.values@[i - 1].1@,
            ));
        }
    }
    proof {
        assert(record_columns(*record).take(n as int) =~= record_columns(*record));
        assert(record_bytes(*record).take(n as int) =~= record_bytes(*record));
    }
    let create_sql = sqlite_create_table(table.as_str(), &cols);
    let insert_sql = sqlite_insert_row(table.as_str(), &cols);
    let key_hex = entity_key_to_hex(&record.entity_key);
    let event_ts = format_millis(&record.timestamp);
    Some(SqliteWrite { table, create_sql, insert_sql, key_hex, values: vals, event_ts })
}

// ---------------------------------------------------------------------------
// Redis
// ---------------------------------------------------------------------------

/// The key of an entity's hash: `ofs:{project}:{feature view}:{hex key}`.
pub open spec fn redis_key_spec(project: Seq<char>, fv: Seq<char>, ek: EntityKey) -> Seq<char> {
    "ofs:"@ + project + ":"@ + fv + ":"@ + entity_key_hex(ek)
}

/// The key of an entity's hash in Redis.
pub fn redis_key(project: &str, fv_name: &str, entity_key: &EntityKey) -> (r: String)
    ensures
        r@ == redis_key_spec(project@, fv_name@, *entity_key),
{
    let mut r = String::from_str("ofs:");
    r.append(project);
    r.append(":");
    r.append(fv_name);
    r.append(":");
    r.append(entity_key_to_hex(entity_key).as_str());
    proof {
        reveal_strlit("ofs:");
        reveal_strlit(":");
    }
    r
}

/// The pattern of all keys of a feature view in a project.
pub fn redis_fv_pattern(project: &str, fv_name: &str) -> (r: String)
    ensures
        r@ == "ofs:"@ + project@ + ":"@ + fv_name@ + ":*"@,
{
    let mut r = String::from_str("ofs:");
    r.append(project);
    r.append(":");
    r.append(fv_name);
    r.append(":*");
    r
}

/// The value of the last field named `k`, if any.
pub open spec fn lookup_last(fields: Seq<(Seq<char>, Seq<char>)>, k: Seq<char>) -> Option<Seq<char>>
    decreases fields.len(),
{
    if fields.len() == 0 {
        None
    } else if fields.last().0 == k {
        Some(fields.last().1)
    } else {
        lookup_last(fields.drop_last(), k)
    }
}

/// The field of a hash that holds the event time.
pub open spec fn event_ts_field() -> Seq<char> {
    "_event_ts"@
}

/// The stored value of the `i`-th feature asked for: the hash's value for
/// its name, unless the name is the event time field or was asked for
/// before (each field is taken once).
pub open spec fn redis_feature_value(
    fields: Seq<(Seq<char>, Seq<char>)>,
    names: Seq<Seq<char>>,
    i: int,
) -> Option<Seq<char>> {
    if names[i] == event_ts_field() || exists|j: int| 0 <= j < i && names[j] == names[i] {
        None
    } else {
        lookup_last(fields, names[i])
    }
}

/// The value of the last field named `k`.
fn find_last(fields: &Vec<(String, String)>, k: &str) -> (r: Option<String>)
    ensures
        match (r, lookup_last(crate::kv::pairs_view(fields@), k@)) {
            (Some(v), Some(w)) => v@ == w,
            (None, None) => true,
            _ => false,
        },
{
    let ghost all = crate::kv::pairs_view(fields@);
    let mut i: usize = fields.len();
    assert(all.take(i as int) =~= all);
    while i > 0
        invariant
            i <= fields@.len(),
            all == crate::kv::pairs_view(fields@),
            lookup_last(all, k@) == lookup_last(all.take(i as int), k@),
        decreases i,
    {
        proof {
            assert(all.take(i as int).drop_last() =~= all.take(i - 1));
        }
        if crate::strings::str_eq(fields[i - 1].0.as_str(), k) {
            return Some(fields[i - 1].1.clone());
        }
        i = i - 1;
    }
    None
}

/// The stored values of the features asked for, as UTF-8 bytes.
pub open spec fn redis_feature_bytes(fields: Seq<(Seq<char>, Seq<char>)>, names: Seq<Seq<char>>) -> Seq<
    Option<Seq<u8>>,
> {
    Seq::new(
        names.len(),
        |i: int| match redis_feature_value(fields, names, i) {
            Some(v) => Some(vstd::utf8::encode_utf8(v)),
            None => None,
        },
    )
}

/// The event time of a hash: what its `_event_ts` field reads as.
pub open spec fn redis_event_time(fields: Seq<(Seq<char>, Seq<char>)>) -> Option<UtcDateTime> {
    match lookup_last(fields, event_ts_field()) {
        Some(t) => rfc3339_instant(t),
        None => None,
    }
}

/// Whether a name occurs among the first `i` names.
fn seen_before(names: &Vec<String>, i: usize) -> (r: bool)
    requires
        i < names@.len(),
    ensures
        r == exists|j: int| 0 <= j < i && views(names@)[j] == views(names@)[i as int],
{
    let mut j: usize = 0;
    while j < i
        invariant
            i < names@.len(),
            j <= i,
            forall|k: int| 0 <= k < j ==> views(names@)[k] != views(names@)[i as int],
        decreases i - j,
    {
        proof {
            assert(views(names@)[j as int] == names@[j as int]@);
            assert(views(names@)[i as int] == names@[i as int]@);
        }
        if crate::strings::str_eq(names[j].as_str(), names[i].as_str()) {
            return true;
        }
        j = j + 1;
    }
    false
}

/// The vector of one entity read from Redis: with no hash (the read
/// failed), `names.len()` features not found; with a hash, the value of each
/// feature asked for as its UTF-8 bytes (a null value where it has none),
/// under the event time that the `_event_ts` field reads as.
pub fn redis_hash_vector(fields: Option<Vec<(String, String)>>, names: &Vec<String>) -> (r: FeatureVector)
    ensures
        match fields {
            None => is_missing_vector(r, names@.len()),
            Some(f) => is_found_vector(
                r,
                redis_feature_bytes(crate::kv::pairs_view(f@), views(names@)),
                redis_event_time(crate::kv::pairs_view(f@)),
            ),
        },
{
    match fields {
        None => missing_vector(names.len()),
        Some(f) => {
            let ghost fv = crate::kv::pairs_view(f@);
            let ts = match find_last(&f, "_event_ts") {
                Some(t) => parse_rfc3339(t.as_str()),
                None => None,
            };
            proof {
                reveal_strlit("_event_ts");
            }
            let n = names.len();
            let mut cols: Vec<Option<Vec<u8>>> = Vec::new();
            let mut i: usize = 0;
            while i < n
                invariant
                    n == names@.len(),
                    fv == crate::kv::pairs_view(f@),
                    i <= n,
                    cols@.len() == i,
                    forall|j: int| 0 <= j < i ==> (#[trigger] opt_byte_rows(cols@)[j]) == redis_feature_bytes(fv, views(names@))[j],
                decreases n - i,
            {
                let skip = crate::strings::str_eq(names[i].as_str(), "_event_ts") || seen_before(names, i);
                proof {
                    reveal_strlit("_event_ts");
                }
                let ghost c0 = cols@;
                if skip {
                    cols.push(None);
                } else {
                    match find_last(&f, names[i].as_str()) {
                        Some(v) => cols.push(Some(vstd::slice::slice_to_vec(v.as_str().as_bytes()))),
                        None => cols.push(None),
                    }
                }
                proof {
                    assert(opt_byte_rows(cols@) =~= opt_byte_rows(c0).push(opt_byte_rows(cols@)[i as int]));
                    assert(views(names@)[i as int] == names@[i as int]@);
                }
                i = i + 1;
            }
            proof {
                assert(opt_byte_rows(cols@) =~= redis_feature_bytes(fv, views(names@)));
            }
            found_vector(cols, ts)
        },
    }
}

/// One Redis write of a record: the key of the entity's hash and the
/// fields to set in it, in order: the event time to the millisecond, then
/// each value of the record.
#[derive(Debug, Clone)]
pub struct RedisWrite {
    pub key: String,
    pub fields: Vec<(String, Vec<u8>)>,
}

/// The names and contents of fields to set.
pub open spec fn field_views(f: Seq<(String, Vec<u8>)>) -> Seq<(Seq<char>, Seq<u8>)> {
    f.map_values(|p: (String, Vec<u8>)| (p.0@, p.1@))
}

/// The fields that a record's write sets, in order.
pub open spec fn redis_write_fields(rec: OnlineWriteRecord) -> Seq<(Seq<char>, Seq<u8>)> {
    seq![(event_ts_field(), vstd::utf8::encode_utf8(millis_text(rec.timestamp)))] + field_views(rec.values@)
}

/// The Redis write of a record under a project.
pub fn redis_write(record: &OnlineWriteRecord, project: &str) -> (r: RedisWrite)
    ensures
        r.key@ == redis_key_spec(project@, record.feature_view_name@, record.entity_key),
        field_views(r.fields@) == redis_write_fields(*record),
{
    let key = redis_key(project, record.feature_view_name.as_str(), &record.entity_key);
    let ts = format_millis(&record.timestamp);
    let mut fields: Vec<(String, Vec<u8>)> = Vec::new();
    fields.push((String::from_str("_event_ts"), vstd::slice::slice_to_vec(ts.as_str().as_bytes())));
    proof {
        reveal_strlit("_event_ts");
        assert(field_views(fields@) =~= seq![(event_ts_field(), vstd::utf8::encode_utf8(millis_text(record.timestamp)))]);
    }
    let n = record.values.len();
    let mut i: usize = 0;
    while i < n
        invariant
            n == record.values@.len(),
            i <= n,
            field_views(fields@) == seq![(event_ts_field(), vstd::utf8::encode_utf8(millis_text(record.timestamp)))]
                + field_views(record.values@).take(i as int),
        decreases n - i,
    {
        let ghost before = fields@;
        fields.push((record.values[i].0.clone(), record.values[i].1.clone()));
        proof {
            assert(field_views(fields@) =~= field_views(before).push((record.values@[i as int].0@, record.values@[i as int].1@)));
            assert(field_views(record.values@).take(i + 1) =~= field_views(record.values@).take(i as int).push(
                (record.values@[i as int].0@, record.values@[i as int].1@),
            ));
        }
        i = i + 1;
    }
    proof {
        assert(field_views(record.values@).take(n as int) =~= field_views(record.values@));
    }
    RedisWrite { key, fields }
}

/// Fields as a read gives them back: each value's bytes read as UTF-8 text.
pub open spec fn as_text(fields: Seq<(Seq<char>, Seq<u8>)>) -> Seq<(Seq<char>, Seq<char>)> {
    fields.map_values(|f: (Seq<char>, Seq<u8>)| (f.0, vstd::utf8::decode_utf8(f.1)))
}

/// The value of the last field named `k` among fields to set.
pub open spec fn last_set(fields: Seq<(Seq<char>, Seq<u8>)>, k: Seq<char>) -> Option<Seq<u8>>
    decreases fields.len(),
{
    if fields.len() == 0 {
        None
    } else if fields.last().0 == k {
        Some(fields.last().1)
    } else {
        last_set(fields.drop_last(), k)
    }
}

/// The last field named `k` in two runs of fields is in the second run if
/// it has one, and otherwise in the first.
pub proof fn lemma_lookup_last_concat(a: Seq<(Seq<char>, Seq<char>)>, b: Seq<(Seq<char>, Seq<char>)>, k: Seq<char>)
    ensures
        lookup_last(a + b, k) == (match lookup_last(b, k) {
            Some(v) => Some(v),
            None => lookup_last(a, k),
        }),
    decreases b.len(),
{
    if b.len() > 0 {
        assert((a + b).drop_last() =~= a + b.drop_last());
        assert((a + b).last() == b.last());
        lemma_lookup_last_concat(a, b.drop_last(), k);
    } else {
        assert(a + b =~= a);
    }
}

/// Reading fields as text reads the last one set.
pub proof fn lemma_last_set_as_text(fields: Seq<(Seq<char>, Seq<u8>)>, k: Seq<char>)
    ensures
        lookup_last(as_text(fields), k) == (match last_set(fields, k) {
            Some(b) => Some(vstd::utf8::decode_utf8(b)),
            None => None,
        }),
    decreases fields.len(),
{
    if fields.len() > 0 {
        assert(as_text(fields).drop_last() =~= as_text(fields.drop_last()));
        lemma_last_set_as_text(fields.drop_last(), k);
    }
}

/// Every value that `last_set` gives is one of the fields' values.
proof fn lemma_last_set_is_value(fields: Seq<(Seq<char>, Seq<u8>)>, k: Seq<char>)
    ensures
        last_set(fields, k) matches Some(b) ==> exists|j: int| 0 <= j < fields.len() && #[trigger] fields[j].1 == b,
        last_set(fields, k) is None <==> forall|j: int| 0 <= j < fields.len() ==> #[trigger] fields[j].0 != k,
    decreases fields.len(),
{
    if fields.len() > 0 {
        lemma_last_set_is_value(fields.drop_last(), k);
        if last_set(fields, k) is None {
            assert forall|j: int| 0 <= j < fields.len() implies #[trigger] fields[j].0 != k by {
                if j < fields.len() - 1 {
                    assert(fields.drop_last()[j] == fields[j]);
                }
            }
        } else if fields.last().0 == k {
            assert(fields[fields.len() - 1].1 == fields.last().1);
        } else {
            let b = last_set(fields, k)->0;
            let j = choose|j: int| 0 <= j < fields.drop_last().len() && #[trigger] fields.drop_last()[j].1 == b;
            assert(fields[j] == fields.drop_last()[j]);
        }
        if forall|j: int| 0 <= j < fields.len() ==> #[trigger] fields[j].0 != k {
            assert(fields[fields.len() - 1].0 != k);
            assert forall|j: int| 0 <= j < fields.drop_last().len() implies #[trigger] fields.drop_last()[j].0 != k by {
                assert(fields[j] == fields.drop_last()[j]);
            }
        }
    }
}

/// What an online read gives back of a Redis write: when the entity's hash,
/// read back, holds for each field the last value set (the fields held
/// before, then those the write set, values read as UTF-8 text), each
/// feature asked for reads as the value the record gave it, or as before
/// where the record gave it none; and, unless the record itself sets the
/// event time field, the event time reads from the text written for the
/// record's time.
pub proof fn lemma_redis_write_then_read(
    record: OnlineWriteRecord,
    before: Seq<(Seq<char>, Seq<char>)>,
    read: Seq<(Seq<char>, Seq<char>)>,
    names: Seq<Seq<char>>,
)
    requires
        forall|j: int| 0 <= j < record.values@.len() ==> vstd::utf8::valid_utf8(#[trigger] record.values@[j].1@),
        forall|k: Seq<char>| #[trigger] lookup_last(read, k) == lookup_last(before + as_text(redis_write_fields(record)), k),
    ensures
        forall|i: int|
            0 <= i < names.len() && names[i] != event_ts_field() && !(exists|j: int| 0 <= j < i && names[j] == names[i])
                ==> #[trigger] redis_feature_bytes(read, names)[i] == (match last_set(field_views(record.values@), names[i]) {
                Some(b) => Some(b),
                None => match lookup_last(before, names[i]) {
                    Some(t) => Some(vstd::utf8::encode_utf8(t)),
                    None => None,
                },
            }),
        (forall|j: int| 0 <= j < record.values@.len() ==> (#[trigger] record.values@[j]).0@ != event_ts_field())
            ==> redis_event_time(read) == rfc3339_instant(millis_text(record.timestamp)),
{
    let w = redis_write_fields(record);
    let vals = field_views(record.values@);
    let head = seq![(event_ts_field(), vstd::utf8::encode_utf8(millis_text(record.timestamp)))];
    assert(w == head + vals);
    assert(as_text(w) =~= as_text(head) + as_text(vals));
    assert forall|i: int|
        0 <= i < names.len() && names[i] != event_ts_field() && !(exists|j: int| 0 <= j < i && names[j] == names[i])
            implies #[trigger] redis_feature_bytes(read, names)[i] == (match last_set(vals, names[i]) {
            Some(b) => Some(b),
            None => match lookup_last(before, names[i]) {
                Some(t) => Some(vstd::utf8::encode_utf8(t)),
                None => None,
            },
        }) by {
        let k = names[i];
        assert(lookup_last(read, k) == lookup_last(before + as_text(w), k));
        assert(before + as_text(w) =~= (before + as_text(head)) + as_text(vals));
        lemma_lookup_last_concat(before + as_text(head), as_text(vals), k);
        lemma_lookup_last_concat(before, as_text(head), k);
        lemma_last_set_as_text(vals, k);
        assert(as_text(head)[0].0 == event_ts_field());
        assert(lookup_last(as_text(head).drop_last(), k) is None);
        assert(lookup_last(as_text(head), k) is None);
        lemma_last_set_is_value(vals, k);
        if let Some(b) = last_set(vals, k) {
            let j = choose|j: int| 0 <= j < vals.len() && #[trigger] vals[j].1 == b;
            assert(vals[j].1 == record.values@[j].1@);
            assert(vstd::utf8::valid_utf8(record.values@[j].1@));
            vstd::utf8::decode_utf8_encode_utf8(b);
        }
        assert(redis_feature_value(read, names, i) == lookup_last(read, k));
    }
    if forall|j: int| 0 <= j < record.values@.len() ==> (#[trigger] record.values@[j]).0@ != event_ts_field() {
        let k = event_ts_field();
        assert(lookup_last(read, k) == lookup_last(before + as_text(w), k));
        assert(before + as_text(w) =~= (before + as_text(head)) + as_text(vals));
        lemma_lookup_last_concat(before + as_text(head), as_text(vals), k);
        lemma_lookup_last_concat(before, as_text(head), k);
        lemma_last_set_as_text(vals, k);
        lemma_last_set_is_value(vals, k);
        assert forall|j: int| 0 <= j < vals.len() implies #[trigger] vals[j].0 != k by {
            assert(vals[j].0 == record.values@[j].0@);
        }
        vstd::utf8::encode_utf8_decode_utf8(millis_text(record.timestamp));
        assert(as_text(head)[0] == (k, millis_text(record.timestamp)));
        assert(lookup_last(as_text(head), k) == Some(millis_text(record.timestamp)));
    }
}

/// Whether a Redis entry whose `_event_ts` field reads `ts` has expired at
/// `cutoff`: the field is there, reads as an RFC 3339 instant, and that
/// instant lies before the cutoff.
pub open spec fn redis_entry_expired_spec(ts: Option<Seq<char>>, cutoff: UtcDateTime) -> bool {
    match ts {
        Some(t) => match rfc3339_instant(t) {
            Some(d) => crate::time::dt_before(d, cutoff),
            None => false,
        },
        None => false,
    }
}

/// Whether a Redis entry with event time field `ts` is to be purged at
/// `cutoff`.
pub fn redis_entry_expired(ts: &Option<String>, cutoff: &UtcDateTime) -> (r: bool)
    ensures
        r == redis_entry_expired_spec(crate::source::opt_view(*ts), *cutoff),
{
    match ts {
        Some(t) => match parse_rfc3339(t.as_str()) {
            Some(d) => d.is_before(cutoff),
            None => false,
        },
        None => false,
    }
}

/// The keys, among those of one scan, whose entries have expired, in scan
/// order; `ts[i]` is the event time field read for `keys[i]`.
pub open spec fn expired_keys_spec(keys: Seq<Seq<char>>, ts: Seq<Option<Seq<char>>>, cutoff: UtcDateTime) -> Seq<
    Seq<char>,
>
    decreases keys.len(),
{
    if keys.len() == 0 {
        Seq::empty()
    } else {
        let rest = expired_keys_spec(keys.drop_last(), ts.drop_last(), cutoff);
        if redis_entry_expired_spec(ts[keys.len() - 1], cutoff) {
            rest.push(keys.last())
        } else {
            rest
        }
    }
}

/// The optional strings' contents.
pub open spec fn opt_views(v: Seq<Option<String>>) -> Seq<Option<Seq<char>>> {
    v.map_values(|o: Option<String>| crate::source::opt_view(o))
}

/// The keys of one scan page to delete: those whose event time field, read
/// into `ts` in the same order, marks them expired at `cutoff`. The purge
/// deletes these and counts them.
pub fn redis_expired_keys(keys: &Vec<String>, ts: &Vec<Option<String>>, cutoff: &UtcDateTime) -> (r: Vec<
    String,
>)
    requires
        keys@.len() == ts@.len(),
    ensures
        views(r@) == expired_keys_spec(views(keys@), opt_views(ts@), *cutoff),
{
    let mut out: Vec<String> = Vec::new();
    let n = keys.len();
    let mut i: usize = 0;
    while i < n
        invariant
            n == keys@.len(),
            n == ts@.len(),
            i <= n,
            views(out@) == expired_keys_spec(views(keys@).take(i as int), opt_views(ts@).take(i as int), *cutoff),
        decreases n - i,
    {
        let ghost before = out@;
        proof {
            assert(views(keys@).take(i + 1).drop_last() =~= views(keys@).take(i as int));
            assert(opt_views(ts@).take(i + 1).drop_last() =~= opt_views(ts@).take(i as int));
            assert(opt_views(ts@).take(i + 1)[i as int] == crate::source::opt_view(ts@[i as int]));
            assert(views(keys@).take(i + 1).last() == keys@[i as int]@);
        }
        if redis_entry_expired(&ts[i], cutoff) {
            out.push(keys[i].clone());
            proof {
                assert(views(out@) =~= views(before).push(keys@[i as int]@));
            }
        }
        i = i + 1;
    }
    proof {
        assert(views(keys@).take(n as int) =~= views(keys@));
        assert(opt_views(ts@).take(n as int) =~= opt_views(ts@));
    }
    out
}

/// The statuses carry the wire numbers of the serving protocol: invalid 0,
/// present 1, null value 2, not found 3, outside the maximum age 4.
pub proof fn lemma_field_status_numbers()
    ensures
        field_status_code(FieldStatus::Invalid) == 0,
        field_status_code(FieldStatus::Present) == 1,
        field_status_code(FieldStatus::NullValue) == 2,
        field_status_code(FieldStatus::NotFound) == 3,
        field_status_code(FieldStatus::OutsideMaxAge) == 4,
{
}

} // verus!
