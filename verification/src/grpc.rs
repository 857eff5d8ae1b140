//! The gRPC serving service's read path: what a `GetOnlineFeatures` request
//! asks for (project, feature service or features, entity keys), which
//! feature views answer it, and the response message built from the online
//! store's answer. Decoding the request and encoding the entity values and
//! the response are the transport's work.
use vstd::prelude::*;

use crate::errors::{error_message, OfsError};
use crate::online::{field_status_code, FeatureVector, FieldStatus, OnlineReadResponse};
use crate::proto;
use crate::serving::{event_time_at, is_request_projection, match_requested_features, selected_views};
use crate::strings::{clone_strings, concat_str, string_from_utf8_lossy, utf8_lossy_text, views};
use crate::health::VERSION;
use crate::types::{EntityKey, FeatureService, FeatureView, FeatureViewWithProjection};

verus! {

/// The status codes of the service's errors.
#[derive(Debug, Clone, Copy, PartialEq, Eq, Structural)]
pub enum GrpcCode {
    InvalidArgument,
    NotFound,
    Internal,
    Unavailable,
}

/// An error status of the service: its code and message.
#[derive(Debug, Clone)]
pub struct GrpcError {
    pub code: GrpcCode,
    pub message: String,
}

/// What a request names: a feature service, or features by name.
#[derive(Debug, Clone)]
pub enum GrpcKind {
    FeatureService(String),
    Features(Vec<String>),
}

/// What a request asks for: the project, the feature service (if it names
/// one), the features it names (none when it names a service), and the
/// entity keys, one per row.
#[derive(Debug, Clone)]
pub struct GrpcReadPlan {
    pub project: String,
    pub feature_service: Option<String>,
    pub feature_names: Vec<String>,
    pub entity_keys: Vec<EntityKey>,
}

/// Whether an entity column has a value for the row.
pub open spec fn has_value(row: int) -> spec_fn((String, Vec<Vec<u8>>)) -> bool {
    |c: (String, Vec<Vec<u8>>)| row < c.1@.len()
}

/// The entity key of a row of a request: every join key name, in the order
/// of the columns, and the row's value of each column that has one (the
/// value's encoded bytes), with no value types.
pub open spec fn grpc_entity_key(columns: Seq<(String, Vec<Vec<u8>>)>, row: int, ek: EntityKey) -> bool {
    &&& views(ek.join_keys@) == columns.map_values(|c: (String, Vec<Vec<u8>>)| c.0@)
    &&& ek.entity_values@.map_values(|v: Vec<u8>| v@) == columns.filter(has_value(row)).map_values(
        |c: (String, Vec<Vec<u8>>)| c.1@[row]@,
    )
    &&& ek.value_types@.len() == 0
}

/// The number of rows of a request: the number of values of its first
/// entity column.
pub open spec fn grpc_row_count(columns: Seq<(String, Vec<Vec<u8>>)>) -> int {
    if columns.len() == 0 {
        0
    } else {
        columns[0].1@.len() as int
    }
}

/// The project of a request: the one its context names, or `default`.
pub open spec fn grpc_project(context_project: Option<String>) -> Seq<char> {
    match context_project {
        Some(p) => p@,
        None => "default"@,
    }
}

fn grpc_entity_key_of_row(columns: &Vec<(String, Vec<Vec<u8>>)>, i: usize) -> (r: EntityKey)
    ensures
        grpc_entity_key(columns@, i as int, r),
{
    let mut keys: Vec<String> = Vec::new();
    let mut vals: Vec<Vec<u8>> = Vec::new();
    let n = columns.len();
    let mut c: usize = 0;
    let ghost row = i as int;
    while c < n
        invariant
            n == columns@.len(),
            c <= n,
            row == i,
            views(keys@) == columns@.take(c as int).map_values(|q: (String, Vec<Vec<u8>>)| q.0@),
            vals@.map_values(|v: Vec<u8>| v@) == columns@.take(c as int).filter(has_value(row)).map_values(
                |q: (String, Vec<Vec<u8>>)| q.1@[row]@,
            ),
        decreases n - c,
    {
        let ghost k0 = keys@;
        let ghost v0 = vals@;
        keys.push(columns[c].0.clone());
        if i < columns[c].1.len() {
            vals.push(columns[c].1[i].clone());
        }
        c = c + 1;
        proof {
            let t = columns@.take(c - 1);
            let e = columns@[c - 1];
            assert(columns@.take(c as int) =~= t.push(e));
            assert(views(keys@) =~= views(k0).push(e.0@));
            assert(t.push(e).map_values(|q: (String, Vec<Vec<u8>>)| q.0@) =~= t.map_values(
                |q: (String, Vec<Vec<u8>>)| q.0@,
            ).push(e.0@));
            t.lemma_filter_push(e, has_value(row));
            let ft = t.filter(has_value(row));
            if row < e.1@.len() {
                assert(has_value(row)(e));
                assert(columns@.take(c as int).filter(has_value(row)) == ft.push(e));
                assert(vals@.map_values(|v: Vec<u8>| v@) =~= v0.map_values(|v: Vec<u8>| v@).push(e.1@[row]@));
                assert(ft.push(e).map_values(|q: (String, Vec<Vec<u8>>)| q.1@[row]@) =~= ft.map_values(
                    |q: (String, Vec<Vec<u8>>)| q.1@[row]@,
                ).push(e.1@[row]@));
            } else {
                assert(!has_value(row)(e));
                assert(columns@.take(c as int).filter(has_value(row)) == ft);
            }
        }
    }
    proof {
        assert(columns@.take(n as int) =~= columns@);
    }
    EntityKey { join_keys: keys, entity_values: vals, value_types: Vec::new() }
}

/// Reads what a request asks for. A request that names neither a feature
/// service nor features fails with `InvalidArgument` "must specify
/// feature_service or features"; a request without entity rows (its first
/// entity column has no value, or it has no column) fails with
/// `InvalidArgument` "no entity keys provided". Otherwise the plan holds the
/// project of the context (or `default`), what the request names, and one
/// entity key per row.
pub fn grpc_read_plan(
    context_project: Option<String>,
    kind: Option<GrpcKind>,
    entities: &Vec<(String, Vec<Vec<u8>>)>,
) -> (r: Result<GrpcReadPlan, GrpcError>)
    ensures
        match kind {
            None => r matches Err(e) && e.code == GrpcCode::InvalidArgument && e.message@
                == "must specify feature_service or features"@,
            Some(k) => if grpc_row_count(entities@) == 0 {
                r matches Err(e) && e.code == GrpcCode::InvalidArgument && e.message@ == "no entity keys provided"@
            } else {
                r matches Ok(plan) && {
                    &&& plan.project@ == grpc_project(context_project)
                    &&& match k {
                        GrpcKind::FeatureService(name) => plan.feature_service == Some(name)
                            && plan.feature_names@.len() == 0,
                        GrpcKind::Features(list) => plan.feature_service is None && plan.feature_names == list,
                    }
                    &&& plan.entity_keys@.len() == grpc_row_count(entities@)
                    &&& forall|i: int|
                        0 <= i < plan.entity_keys@.len() ==> grpc_entity_key(entities@, i, #[trigger] plan.entity_keys@[i])
                }
            },
        },
{
    let (feature_service, feature_names) = match kind {
        Some(GrpcKind::FeatureService(name)) => (Some(name), Vec::new()),
        Some(GrpcKind::Features(list)) => (None, list),
        None => {
            return Err(
                GrpcError {
                    code: GrpcCode::InvalidArgument,
                    message: String::from_str("must specify feature_service or features"),
                },
            );
        },
    };
    let count = if entities.len() == 0 {
        0
    } else {
        entities[0].1.len()
    };
    let mut keys: Vec<EntityKey> = Vec::new();
    let mut i: usize = 0;
    while i < count
        invariant
            count == grpc_row_count(entities@),
            i <= count,
            keys@.len() == i,
            forall|j: int| 0 <= j < i ==> grpc_entity_key(entities@, j, #[trigger] keys@[j]),
        decreases count - i,
    {
        keys.push(grpc_entity_key_of_row(entities, i));
        i = i + 1;
    }
    if keys.len() == 0 {
        return Err(GrpcError { code: GrpcCode::InvalidArgument, message: String::from_str("no entity keys provided") });
    }
    let project = match context_project {
        Some(p) => p,
        None => String::from_str("default"),
    };
    Ok(GrpcReadPlan { project, feature_service, feature_names, entity_keys: keys })
}

/// The version that `GetFeastServingInfo` answers with.
pub fn grpc_serving_version() -> (r: String)
    ensures
        r@ == VERSION@,
{
    String::from_str(VERSION)
}

// ---------------------------------------------------------------------------
// Feature views
// ---------------------------------------------------------------------------

/// The status of a failed registry call: `Internal` with the error's message.
pub open spec fn is_internal_error(g: GrpcError, e: OfsError) -> bool {
    g.code == GrpcCode::Internal && g.message@ == error_message(e)
}

/// The status of a request whose names match no feature view.
pub open spec fn is_no_match_error(g: GrpcError) -> bool {
    g.code == GrpcCode::NotFound && g.message@ == "no matching feature views found"@
}

fn internal_error(e: &OfsError) -> (r: GrpcError)
    ensures
        is_internal_error(r, *e),
{
    GrpcError { code: GrpcCode::Internal, message: e.to_string() }
}

fn no_match_error() -> (r: GrpcError)
    ensures
        is_no_match_error(r),
{
    GrpcError { code: GrpcCode::NotFound, message: String::from_str("no matching feature views found") }
}

/// The feature service a request names, from what the registry gave for
/// it: the registry's error as `Internal`, `NotFound` "feature service
/// '{name}' not found" when it has none, or the service.
pub fn grpc_feature_service(name: &String, fetched: Result<Option<FeatureService>, OfsError>) -> (r: Result<
    FeatureService,
    GrpcError,
>)
    ensures
        match fetched {
            Err(e) => r matches Err(g) && is_internal_error(g, e),
            Ok(None) => r matches Err(g) && g.code == GrpcCode::NotFound && g.message@ == "feature service '"@
                + name@ + "' not found"@,
            Ok(Some(fs)) => r == Ok::<FeatureService, GrpcError>(fs),
        },
{
    match fetched {
        Err(e) => Err(internal_error(&e)),
        Ok(None) => {
            let head = concat_str("feature service '", name.as_str());
            Err(GrpcError { code: GrpcCode::NotFound, message: concat_str(head.as_str(), "' not found") })
        },
        Ok(Some(fs)) => Ok(fs),
    }
}

/// Whether a registry lookup found its feature view.
pub open spec fn view_found(x: Result<Option<FeatureView>, OfsError>) -> bool {
    x matches Ok(Some(_))
}

/// The status of the first failed lookup of a service's feature views: the
/// registry's error as `Internal`, or `NotFound` "feature view '{name}' not
/// found" for the view that the projection names.
pub open spec fn is_lookup_error(g: GrpcError, x: Result<Option<FeatureView>, OfsError>, view_name: Seq<char>) -> bool {
    match x {
        Err(e) => is_internal_error(g, e),
        Ok(_) => g.code == GrpcCode::NotFound && g.message@ == "feature view '"@ + view_name + "' not found"@,
    }
}

/// The feature views of a feature service, from the registry's lookup of
/// the view of each of its projections, in order. The first lookup that
/// fails decides the error; when all succeed, each view comes with its
/// projection, and a service without projections matches nothing.
pub fn grpc_service_views(fs: FeatureService, fetched: Vec<Result<Option<FeatureView>, OfsError>>) -> (r: Result<
    Vec<FeatureViewWithProjection>,
    GrpcError,
>)
    requires
        fetched@.len() == fs.features@.len(),
    ensures
        forall|k: int|
            0 <= k < fetched@.len() && !view_found(#[trigger] fetched@[k]) && (forall|j: int|
                0 <= j < k ==> view_found(fetched@[j])) ==> (r matches Err(g) && is_lookup_error(
                g,
                fetched@[k],
                fs.features@[k].feature_view_name@,
            )),
        (forall|j: int| 0 <= j < fetched@.len() ==> view_found(#[trigger] fetched@[j])) ==> if fetched@.len() == 0 {
            r matches Err(g) && is_no_match_error(g)
        } else {
            r matches Ok(v) && v@.len() == fetched@.len() && forall|i: int|
                0 <= i < v@.len() ==> {
                    &&& (fetched@[i] matches Ok(Some(fv)) && (#[trigger] v@[i]).feature_view == fv)
                    &&& v@[i].projection == fs.features@[i]
                }
        },
{
    let ghost all = fetched@;
    let ghost projs = fs.features@;
    let mut rest = fetched;
    let mut prest = fs.features;
    let n = rest.len();
    let mut out: Vec<FeatureViewWithProjection> = Vec::new();
    let mut i: usize = 0;
    while i < n
        invariant
            all == fetched@,
            projs == fs.features@,
            n == all.len(),
            n == projs.len(),
            i <= n,
            rest@ == all.skip(i as int),
            prest@ == projs.skip(i as int),
            out@.len() == i,
            forall|j: int| 0 <= j < i ==> view_found(#[trigger] all[j]),
            forall|j: int|
                0 <= j < i ==> {
                    &&& (all[j] matches Ok(Some(fv)) && (#[trigger] out@[j]).feature_view == fv)
                    &&& out@[j].projection == projs[j]
                },
        decreases n - i,
    {
        let x = rest.remove(0);
        let p = prest.remove(0);
        proof {
            assert(x == all[i as int]);
            assert(p == projs[i as int]);
            assert(rest@ =~= all.skip(i + 1));
            assert(prest@ =~= projs.skip(i + 1));
            if !view_found(x) {
                assert forall|k: int|
                    0 <= k < all.len() && !view_found(#[trigger] all[k]) && (forall|j: int|
                        0 <= j < k ==> view_found(all[j])) implies k == i by {
                    if k > i {
                        assert(view_found(all[i as int]));
                    }
                }
            }
        }
        match x {
            Err(e) => {
                return Err(internal_error(&e));
            },
            Ok(None) => {
                let head = concat_str("feature view '", p.feature_view_name.as_str());
                return Err(GrpcError { code: GrpcCode::NotFound, message: concat_str(head.as_str(), "' not found") });
            },
            Ok(Some(fv)) => {
                out.push(FeatureViewWithProjection { feature_view: fv, projection: p });
            },
        }
        i = i + 1;
    }
    if n == 0 {
        return Err(no_match_error());
    }
    Ok(out)
}

/// The feature views that a request naming features reads, from the
/// registry's list of the project's views: the registry's error as
/// `Internal`; otherwise each view with a named feature, projected onto the
/// named features, and `NotFound` "no matching feature views found" when
/// there is none.
pub fn grpc_feature_views(all: Result<Vec<FeatureView>, OfsError>, feature_names: &Vec<String>) -> (r: Result<
    Vec<FeatureViewWithProjection>,
    GrpcError,
>)
    ensures
        match all {
            Err(e) => r matches Err(g) && is_internal_error(g, e),
            Ok(fvs) => if selected_views(fvs@, views(feature_names@)).len() == 0 {
                r matches Err(g) && is_no_match_error(g)
            } else {
                r matches Ok(v) && v@.len() == selected_views(fvs@, views(feature_names@)).len() && forall|k: int|
                    0 <= k < v@.len() ==> {
                        let sel = selected_views(fvs@, views(feature_names@))[k];
                        &&& (#[trigger] v@[k]).feature_view == sel.0
                        &&& is_request_projection(v@[k].projection, sel.0, sel.1)
                    }
            },
        },
{
    match all {
        Err(e) => Err(internal_error(&e)),
        Ok(fvs) => {
            let matched = match_requested_features(fvs, feature_names);
            if matched.len() == 0 {
                Err(no_match_error())
            } else {
                Ok(matched)
            }
        },
    }
}

// ---------------------------------------------------------------------------
// Response
// ---------------------------------------------------------------------------

/// One result of the response: each value as text, its status code and its
/// event time.
#[derive(Debug, Clone)]
pub struct GrpcFeatureVector {
    pub values: Vec<String>,
    pub statuses: Vec<i32>,
    pub event_timestamps: Vec<proto::Timestamp>,
}

/// The response to a read: the names of the columns, one result per
/// entity, and a success flag.
#[derive(Debug, Clone)]
pub struct GrpcOnlineResponse {
    pub feature_names: Vec<String>,
    pub results: Vec<GrpcFeatureVector>,
    pub status: bool,
}

/// The status code of column `i` of a result: the code of its status, or 0
/// when it has none.
pub open spec fn status_code_at(fv: FeatureVector, i: int) -> i32 {
    if i < fv.statuses@.len() {
        field_status_code(fv.statuses@[i])
    } else {
        0
    }
}

/// The event time of column `i` of a result as a message: its seconds and
/// nanoseconds, or zero when it has none.
pub open spec fn timestamp_at(fv: FeatureVector, i: int) -> proto::Timestamp {
    match event_time_at(fv, i) {
        Some(d) => proto::Timestamp { seconds: d.secs, nanos: d.nanos as i32 },
        None => proto::Timestamp { seconds: 0, nanos: 0 },
    }
}

/// Whether `g` is the response's form of the result `fv`: one entry per
/// value, the value's bytes read as lossy UTF-8 text.
pub open spec fn is_grpc_vector(g: GrpcFeatureVector, fv: FeatureVector) -> bool {
    &&& g.values@.len() == fv.values@.len()
    &&& g.statuses@.len() == fv.values@.len()
    &&& g.event_timestamps@.len() == fv.values@.len()
    &&& forall|i: int|
        0 <= i < fv.values@.len() ==> {
            &&& (#[trigger] g.values@[i])@ == utf8_lossy_text(fv.values@[i]@)
            &&& g.statuses@[i] == status_code_at(fv, i)
            &&& g.event_timestamps@[i] == timestamp_at(fv, i)
        }
}

fn grpc_vector(fv: &FeatureVector) -> (r: GrpcFeatureVector)
    ensures
        is_grpc_vector(r, *fv),
{
    let mut values: Vec<String> = Vec::new();
    let mut statuses: Vec<i32> = Vec::new();
    let mut stamps: Vec<proto::Timestamp> = Vec::new();
    let n = fv.values.len();
    let mut i: usize = 0;
    while i < n
        invariant
            n == fv.values@.len(),
            i <= n,
            values@.len() == i,
            statuses@.len() == i,
            stamps@.len() == i,
            forall|j: int|
                0 <= j < i ==> {
                    &&& (#[trigger] values@[j])@ == utf8_lossy_text(fv.values@[j]@)
                    &&& statuses@[j] == status_code_at(*fv, j)
                    &&& stamps@[j] == timestamp_at(*fv, j)
                },
        decreases n - i,
    {
        values.push(string_from_utf8_lossy(fv.values[i].as_slice()));
        let code: i32 = if i < fv.statuses.len() {
            match fv.statuses[i] {
                FieldStatus::Present => 1,
                FieldStatus::NullValue => 2,
                FieldStatus::NotFound => 3,
                FieldStatus::OutsideMaxAge => 4,
                FieldStatus::Invalid => 0,
            }
        } else {
            0
        };
        statuses.push(code);
        let stamp = if i < fv.event_timestamps.len() {
            match fv.event_timestamps[i] {
                Some(d) => proto::Timestamp { seconds: d.secs, nanos: d.nanos as i32 },
                None => proto::Timestamp { seconds: 0, nanos: 0 },
            }
        } else {
            proto::Timestamp { seconds: 0, nanos: 0 }
        };
        stamps.push(stamp);
        i = i + 1;
    }
    GrpcFeatureVector { values, statuses, event_timestamps: stamps }
}

/// The response message for an online store's answer: the answer's column
/// names, each result in the response's form, and success.
pub fn grpc_response(resp: &OnlineReadResponse) -> (r: GrpcOnlineResponse)
    ensures
        views(r.feature_names@) == views(resp.metadata.feature_names@),
        r.results@.len() == resp.results@.len(),
        forall|k: int| 0 <= k < r.results@.len() ==> is_grpc_vector(#[trigger] r.results@[k], resp.results@[k]),
        r.status,
{
    let mut results: Vec<GrpcFeatureVector> = Vec::new();
    let n = resp.results.len();
    let mut k: usize = 0;
    while k < n
        invariant
            n == resp.results@.len(),
            k <= n,
            results@.len() == k,
            forall|j: int| 0 <= j < k ==> is_grpc_vector(#[trigger] results@[j], resp.results@[j]),
        decreases n - k,
    {
        results.push(grpc_vector(&resp.results[k]));
        k = k + 1;
    }
    GrpcOnlineResponse { feature_names: clone_strings(&resp.metadata.feature_names), results, status: true }
}

/// The reply to a read from what the online store gave: its error as
/// `Internal`, or the response message for its answer.
pub fn grpc_read_result(read: Result<OnlineReadResponse, OfsError>) -> (r: Result<GrpcOnlineResponse, GrpcError>)
    ensures
        match read {
            Err(e) => r matches Err(g) && is_internal_error(g, e),
            Ok(resp) => r matches Ok(m) && {
                &&& views(m.feature_names@) == views(resp.metadata.feature_names@)
                &&& m.results@.len() == resp.results@.len()
                &&& forall|k: int| 0 <= k < m.results@.len() ==> is_grpc_vector(#[trigger] m.results@[k], resp.results@[k])
                &&& m.status
            },
        },
{
    match read {
        Err(e) => Err(internal_error(&e)),
        Ok(resp) => Ok(grpc_response(&resp)),
    }
}

} // verus!
