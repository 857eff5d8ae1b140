//! The feature cache in front of an online store: cache keys, what is kept
//! for an entry, the Redis keys of the second tier, and the decisions of the
//! cached store (when a read can use the cache, what a hit answers, which
//! entries a write invalidates, what warming stores). The caches themselves
//! are run by the caller.
use vstd::prelude::*;

use crate::config::CacheConfig;
use crate::errors::OfsError;
use crate::online::{
    column_names, fv_column_names, is_found_vector, FeatureVector, FieldStatus, OnlineReadResponse,
    OnlineResponseMetadata, byte_rows, cached_status, field_status_code, found_value,
};
use crate::strings::{join_spec, join_strings, views};
use crate::time::{format_rfc3339, is_rfc3339_of, parse_rfc3339, rfc3339_instant, rfc3339_round_trips, utc_now, UtcDateTime};
use crate::types::{EntityKey, FeatureViewWithProjection, OnlineWriteRecord};

verus! {

/// The key of a cached feature vector: project, feature view and entity.
#[derive(Debug, Clone, PartialEq, Eq, Hash)]
pub struct CacheKey {
    pub project: String,
    pub feature_view: String,
    pub entity_key: String,
}

/// The text of a cache key: `{project}:{feature view}:{entity}`.
pub open spec fn cache_key_text(k: CacheKey) -> Seq<char> {
    k.project@ + ":"@ + k.feature_view@ + ":"@ + k.entity_key@
}

impl CacheKey {
    /// The text of the key.
    pub fn to_string(&self) -> (r: String)
        ensures
            r@ == cache_key_text(*self),
    {
        let mut r = self.project.clone();
        r.append(":");
        r.append(self.feature_view.as_str());
        r.append(":");
        r.append(self.entity_key.as_str());
        proof {
            reveal_strlit(":");
        }
        r
    }
}

/// A cached feature vector: the values, the status codes, the event times
/// as RFC 3339 text, and when it was cached.
#[derive(Debug, Clone)]
pub struct CachedValue {
    pub values: Vec<Vec<u8>>,
    pub statuses: Vec<i32>,
    pub event_timestamps: Vec<Option<String>>,
    pub cached_at: String,
}

/// The text of an entity's values in a cache key: `:` and the lower-case
/// hex form of each value, in order.
pub open spec fn values_part(vs: Seq<Vec<u8>>) -> Seq<char>
    decreases vs.len(),
{
    if vs.len() == 0 {
        Seq::empty()
    } else {
        values_part(vs.drop_last()) + ":"@ + crate::online::hex_spec(vs.last()@)
    }
}

/// The entity part of a cache key: the join key names joined with `:`,
/// followed by the entity's values, so that two entities with the same key
/// names but other values have different entries.
pub open spec fn entity_part(ek: EntityKey) -> Seq<char> {
    join_spec(views(ek.join_keys@), ":"@) + values_part(ek.entity_values@)
}

fn build_entity_part(ek: &EntityKey) -> (r: String)
    ensures
        r@ == entity_part(*ek),
{
    let mut r = join_strings(&ek.join_keys, ":");
    let ghost base = r@;
    let n = ek.entity_values.len();
    let mut i: usize = 0;
    while i < n
        invariant
            n == ek.entity_values@.len(),
            i <= n,
            r@ == base + values_part(ek.entity_values@.take(i as int)),
        decreases n - i,
    {
        r.append(":");
        let h = crate::online::hex_encode(ek.entity_values[i].as_slice());
        r.append(h.as_str());
        proof {
            assert(ek.entity_values@.take(i + 1).drop_last() =~= ek.entity_values@.take(i as int));
            assert(ek.entity_values@.take(i + 1).last() == ek.entity_values@[i as int]);
        }
        i = i + 1;
    }
    proof {
        assert(ek.entity_values@.take(n as int) =~= ek.entity_values@);
    }
    r
}

/// Whether `k` is the cache key of an entity of a feature view in a project.
pub open spec fn is_cache_key(k: CacheKey, project: Seq<char>, fv: Seq<char>, ek: EntityKey) -> bool {
    k.project@ == project && k.feature_view@ == fv && k.entity_key@ == entity_part(ek)
}

/// The cache key of an entity of a feature view in a project.
pub fn build_cache_key(project: &str, fv_name: &str, ek: &EntityKey) -> (r: CacheKey)
    ensures
        is_cache_key(r, project@, fv_name@, *ek),
{
    CacheKey {
        project: String::from_str(project),
        feature_view: String::from_str(fv_name),
        entity_key: build_entity_part(ek),
    }
}

/// The second cache tier's settings: where Redis is, the prefix of its
/// keys, and how long its entries live.
#[derive(Debug, Clone)]
pub struct L2Cache {
    pub connection_string: String,
    pub key_prefix: String,
    pub default_ttl_secs: u64,
}

/// The Redis key of a cache entry: `{prefix}ofs:cache:{project}:{feature
/// view}:{entity}`.
pub open spec fn l2_key_text(prefix: Seq<char>, k: CacheKey) -> Seq<char> {
    prefix + "ofs:cache:"@ + k.project@ + ":"@ + k.feature_view@ + ":"@ + k.entity_key@
}

impl L2Cache {
    /// The settings of a second tier (the connection is opened by the
    /// caller).
    pub fn new(connection_string: &str, key_prefix: &str, default_ttl_secs: u64) -> (r: Self)
        ensures
            r.connection_string@ == connection_string@,
            r.key_prefix@ == key_prefix@,
            r.default_ttl_secs == default_ttl_secs,
    {
        L2Cache {
            connection_string: String::from_str(connection_string),
            key_prefix: String::from_str(key_prefix),
            default_ttl_secs,
        }
    }

    /// A second tier that is never connected, for tests of key layout.
    pub fn new_mock(connection_string: &str, key_prefix: &str, default_ttl_secs: u64) -> (r: Self)
        ensures
            r.connection_string@ == connection_string@,
            r.key_prefix@ == key_prefix@,
            r.default_ttl_secs == default_ttl_secs,
    {
        Self::new(connection_string, key_prefix, default_ttl_secs)
    }

    /// The Redis key of a cache entry.
    pub fn redis_key(&self, key: &CacheKey) -> (r: String)
        ensures
            r@ == l2_key_text(self.key_prefix@, *key),
    {
        let mut r = self.key_prefix.clone();
        r.append("ofs:cache:");
        r.append(key.project.as_str());
        r.append(":");
        r.append(key.feature_view.as_str());
        r.append(":");
        r.append(key.entity_key.as_str());
        r
    }

    /// The pattern of all of this tier's entries: `{prefix}ofs:cache:*`.
    pub fn clear_pattern(&self) -> (r: String)
        ensures
            r@ == self.key_prefix@ + "ofs:cache:*"@,
    {
        let mut r = self.key_prefix.clone();
        r.append("ofs:cache:*");
        r
    }
}

/// The tiers of a cached store: the first tier's capacity and lifetime of
/// entries, when it is on, and the second tier's settings, when Redis nodes
/// are given.
#[derive(Debug, Clone)]
pub struct CacheTiers {
    pub l1: Option<(u64, u64)>,
    pub l2: Option<L2Cache>,
}

/// The tiers that a cache configuration asks for: the first when the cache
/// is enabled; the second when Redis is configured with at least one node,
/// on the first node, with the configured prefix (or none) and lifetime (or
/// the cache's).
pub fn plan_cache_tiers(config: &CacheConfig) -> (r: CacheTiers)
    ensures
        config.enabled <==> r.l1 is Some,
        r.l1 matches Some(p) ==> p.0 == config.max_size && p.1 == config.ttl_secs,
        (config.redis matches Some(rc) && rc.nodes@.len() > 0) <==> r.l2 is Some,
        r.l2 matches Some(l2) ==> config.redis matches Some(rc) && {
            &&& l2.connection_string@ == rc.nodes@[0]@
            &&& l2.key_prefix@ == match rc.key_prefix {
                Some(p) => p@,
                None => Seq::empty(),
            }
            &&& l2.default_ttl_secs == match rc.default_ttl_secs {
                Some(t) => t,
                None => config.ttl_secs,
            }
        },
{
    let l1 = if config.enabled {
        Some((config.max_size as u64, config.ttl_secs))
    } else {
        None
    };
    let l2 = match &config.redis {
        Some(rc) => {
            if rc.nodes.len() > 0 {
                let ttl = match rc.default_ttl_secs {
                    Some(t) => t,
                    None => config.ttl_secs,
                };
                let prefix = match &rc.key_prefix {
                    Some(p) => p.clone(),
                    None => String::new(),
                };
                Some(L2Cache::new(rc.nodes[0].as_str(), prefix.as_str(), ttl))
            } else {
                None
            }
        },
        None => None,
    };
    CacheTiers { l1, l2 }
}

/// The cache key that a read looks up: only a read of exactly one entity
/// of exactly one feature view goes through the cache.
pub fn single_lookup_key(entity_keys: &Vec<EntityKey>, features: &Vec<FeatureViewWithProjection>, project: &str) -> (r:
    Option<CacheKey>)
    ensures
        (entity_keys@.len() == 1 && features@.len() == 1) <==> r is Some,
        r matches Some(k) ==> is_cache_key(k, project@, features@[0].feature_view.name@, entity_keys@[0]),
{
    if entity_keys.len() == 1 && features.len() == 1 {
        Some(build_cache_key(project, features[0].feature_view.name.as_str(), &entity_keys[0]))
    } else {
        None
    }
}

/// The cache keys that a write invalidates: one per record, in order.
pub fn invalidation_keys(data: &Vec<OnlineWriteRecord>, project: &str) -> (r: Vec<CacheKey>)
    ensures
        r@.len() == data@.len(),
        forall|i: int| 0 <= i < data@.len() ==> is_cache_key(
            #[trigger] r@[i],
            project@,
            data@[i].feature_view_name@,
            data@[i].entity_key,
        ),
{
    let n = data.len();
    let mut out: Vec<CacheKey> = Vec::new();
    let mut i: usize = 0;
    while i < n
        invariant
            n == data@.len(),
            i <= n,
            out@.len() == i,
            forall|j: int| 0 <= j < i ==> is_cache_key(
                #[trigger] out@[j],
                project@,
                data@[j].feature_view_name@,
                data@[j].entity_key,
            ),
        decreases n - i,
    {
        let k = build_cache_key(project, data[i].feature_view_name.as_str(), &data[i].entity_key);
        out.push(k);
        i = i + 1;
    }
    out
}

/// What a cached entry keeps of a feature vector: the values, the status
/// codes, and the event times as RFC 3339 text.
pub open spec fn caches_vector(c: CachedValue, fv: FeatureVector) -> bool {
    &&& byte_rows(c.values@) == byte_rows(fv.values@)
    &&& c.statuses@ == fv.statuses@.map_values(|s: FieldStatus| field_status_code(s))
    &&& c.event_timestamps@.len() == fv.event_timestamps@.len()
    &&& forall|i: int| 0 <= i < c.event_timestamps@.len() ==> match (#[trigger] c.event_timestamps@[i], fv.event_timestamps@[i]) {
        (Some(t), Some(d)) => is_rfc3339_of(t@, d),
        (None, None) => true,
        _ => false,
    }
}

/// The entry that caches a feature vector, cached at the given time.
pub fn cache_vector(fv: &FeatureVector, cached_at: String) -> (r: CachedValue)
    ensures
        caches_vector(r, *fv),
        r.cached_at == cached_at,
{
    let n = fv.values.len();
    let mut values: Vec<Vec<u8>> = Vec::new();
    let mut i: usize = 0;
    while i < n
        invariant
            n == fv.values@.len(),
            i <= n,
            byte_rows(values@) == byte_rows(fv.values@).take(i as int),
        decreases n - i,
    {
        let ghost v0 = values@;
        let c = fv.values[i].clone();
        assert(c@ =~= fv.values@[i as int]@);
        values.push(c);
        i = i + 1;
        proof {
            assert(byte_rows(values@) =~= byte_rows(v0).push(fv.values@[i - 1]@));
            assert(byte_rows(fv.values@).take(i as int) =~= byte_rows(fv.values@).take(i - 1).push(
                fv.values@[i - 1]@,
            ));
        }
    }
    proof {
        assert(byte_rows(fv.values@).take(n as int) =~= byte_rows(fv.values@));
    }
    let m = fv.statuses.len();
    let mut statuses: Vec<i32> = Vec::new();
    let mut j: usize = 0;
    while j < m
        invariant
            m == fv.statuses@.len(),
            j <= m,
            statuses@ == fv.statuses@.take(j as int).map_values(|s: FieldStatus| field_status_code(s)),
        decreases m - j,
    {
        statuses.push(fv.statuses[j].code());
        j = j + 1;
        proof {
            assert(fv.statuses@.take(j as int).map_values(|s: FieldStatus| field_status_code(s)) =~= fv.statuses@.take(
                j - 1,
            ).map_values(|s: FieldStatus| field_status_code(s)).push(field_status_code(fv.statuses@[j - 1])));
        }
    }
    proof {
        assert(fv.statuses@.take(m as int) =~= fv.statuses@);
    }
    let k = fv.event_timestamps.len();
    let mut stamps: Vec<Option<String>> = Vec::new();
    let mut t: usize = 0;
    while t < k
        invariant
            k == fv.event_timestamps@.len(),
            t <= k,
            stamps@.len() == t,
            forall|q: int| 0 <= q < t ==> match (#[trigger] stamps@[q], fv.event_timestamps@[q]) {
                (Some(a), Some(d)) => is_rfc3339_of(a@, d),
                (None, None) => true,
                _ => false,
            },
        decreases k - t,
    {
        match &fv.event_timestamps[t] {
            Some(d) => stamps.push(Some(format_rfc3339(d))),
            None => stamps.push(None),
        }
        t = t + 1;
    }
    CachedValue { values, statuses, event_timestamps: stamps, cached_at }
}

/// The entry that caches the first result of a read, cached at the given
/// time; none for a read without results.
pub fn cached_value_of(response: &OnlineReadResponse, cached_at: String) -> (r: Option<CachedValue>)
    ensures
        response.results@.len() == 0 <==> r is None,
        r matches Some(c) ==> caches_vector(c, response.results@[0]) && c.cached_at == cached_at,
{
    if response.results.len() == 0 {
        None
    } else {
        Some(cache_vector(&response.results[0], cached_at))
    }
}

/// The entry that caches the first result of a read, stamped with the
/// current time as RFC 3339 text.
pub fn build_cached_value(response: &OnlineReadResponse) -> (r: Option<CachedValue>)
    ensures
        response.results@.len() == 0 <==> r is None,
        r matches Some(c) ==> caches_vector(c, response.results@[0]),
{
    let now = utc_now();
    cached_value_of(response, format_rfc3339(&now))
}

/// The feature vector that a cached entry stands for: its values, the
/// status of each code, and the instant each event time text reads as.
pub open spec fn restores_vector(fv: FeatureVector, c: CachedValue) -> bool {
    &&& byte_rows(fv.values@) == byte_rows(c.values@)
    &&& fv.statuses@ == c.statuses@.map_values(|s: i32| cached_status(s))
    &&& fv.event_timestamps@.len() == c.event_timestamps@.len()
    &&& forall|i: int| 0 <= i < c.event_timestamps@.len() ==> (#[trigger] fv.event_timestamps@[i]) == match c.event_timestamps@[i] {
        Some(t) => rfc3339_instant(t@),
        None => None,
    }
}

/// The answer to a read served from the cache: the column names of the
/// requested feature views and the one cached vector.
pub fn cached_response(cached: CachedValue, features: &Vec<FeatureViewWithProjection>) -> (r: OnlineReadResponse)
    ensures
        views(r.metadata.feature_names@) == crate::online::read_names(features@, 1),
        r.results@.len() == 1,
        restores_vector(r.results@[0], cached),
{
    let mut names: Vec<String> = Vec::new();
    let n = features.len();
    let mut i: usize = 0;
    while i < n
        invariant
            n == features@.len(),
            i <= n,
            views(names@) == crate::online::read_names(features@.take(i as int), 1),
        decreases n - i,
    {
        let cols = column_names(&features[i]);
        let m = cols.len();
        let mut j: usize = 0;
        let ghost base = views(names@);
        while j < m
            invariant
                m == cols@.len(),
                j <= m,
                views(names@) == base + views(cols@).take(j as int),
            decreases m - j,
        {
            let ghost b2 = names@;
            names.push(cols[j].clone());
            j = j + 1;
            proof {
                assert(views(names@) =~= views(b2).push(cols@[j - 1]@));
                assert(views(cols@).take(j as int) =~= views(cols@).take(j - 1).push(cols@[j - 1]@));
            }
        }
        i = i + 1;
        proof {
            assert(views(cols@).take(m as int) =~= views(cols@));
            assert(features@.take(i as int).drop_last() =~= features@.take(i - 1));
            assert(features@.take(i as int).last() == features@[i - 1]);
            assert(crate::online::repeat_names(fv_column_names(features@[i - 1]), 1) =~= fv_column_names(
                features@[i - 1],
            )) by {
                assert(crate::online::repeat_names(fv_column_names(features@[i - 1]), 0) =~= Seq::<
                    Seq<char>,
                >::empty());
            }
        }
    }
    proof {
        assert(features@.take(n as int) =~= features@);
    }
    let k = cached.event_timestamps.len();
    let mut stamps: Vec<Option<UtcDateTime>> = Vec::new();
    let mut t: usize = 0;
    while t < k
        invariant
            k == cached.event_timestamps@.len(),
            t <= k,
            stamps@.len() == t,
            forall|q: int| 0 <= q < t ==> (#[trigger] stamps@[q]) == match cached.event_timestamps@[q] {
                Some(s) => rfc3339_instant(s@),
                None => None,
            },
        decreases k - t,
    {
        match &cached.event_timestamps[t] {
            Some(s) => stamps.push(parse_rfc3339(s.as_str())),
            None => stamps.push(None),
        }
        t = t + 1;
    }
    let m = cached.statuses.len();
    let mut statuses: Vec<FieldStatus> = Vec::new();
    let mut j: usize = 0;
    while j < m
        invariant
            m == cached.statuses@.len(),
            j <= m,
            statuses@ == cached.statuses@.take(j as int).map_values(|s: i32| cached_status(s)),
        decreases m - j,
    {
        statuses.push(FieldStatus::from_cached_code(cached.statuses[j]));
        j = j + 1;
        proof {
            assert(cached.statuses@.take(j as int).map_values(|s: i32| cached_status(s)) =~= cached.statuses@.take(
                j - 1,
            ).map_values(|s: i32| cached_status(s)).push(cached_status(cached.statuses@[j - 1])));
        }
    }
    proof {
        assert(cached.statuses@.take(m as int) =~= cached.statuses@);
    }
    let CachedValue { values, statuses: _, event_timestamps: _, cached_at: _ } = cached;
    let v = FeatureVector { values, statuses, event_timestamps: stamps };
    let mut results: Vec<FeatureVector> = Vec::new();
    results.push(v);
    OnlineReadResponse { metadata: OnlineResponseMetadata { feature_names: names }, results }
}

/// The entry of a second-tier hit turned into an answer (the same answer
/// as a first-tier hit).
pub fn l2_hit_to_response(cached: CachedValue, features: &Vec<FeatureViewWithProjection>) -> (r: OnlineReadResponse)
    ensures
        views(r.metadata.feature_names@) == crate::online::read_names(features@, 1),
        r.results@.len() == 1,
        restores_vector(r.results@[0], cached),
{
    cached_response(cached, features)
}

/// A copy of a cache key.
pub fn copy_key(k: &CacheKey) -> (r: CacheKey)
    ensures
        r.project@ == k.project@,
        r.feature_view@ == k.feature_view@,
        r.entity_key@ == k.entity_key@,
{
    CacheKey {
        project: k.project.clone(),
        feature_view: k.feature_view.clone(),
        entity_key: k.entity_key.clone(),
    }
}

/// A copy of a cached entry.
pub fn copy_cached(c: &CachedValue) -> (r: CachedValue)
    ensures
        byte_rows(r.values@) == byte_rows(c.values@),
        r.statuses@ == c.statuses@,
        crate::online::opt_views(r.event_timestamps@) == crate::online::opt_views(c.event_timestamps@),
        r.cached_at@ == c.cached_at@,
{
    let mut values: Vec<Vec<u8>> = Vec::new();
    let n = c.values.len();
    let mut i: usize = 0;
    while i < n
        invariant
            n == c.values@.len(),
            i <= n,
            byte_rows(values@) == byte_rows(c.values@).take(i as int),
        decreases n - i,
    {
        let ghost before = values@;
        values.push(c.values[i].clone());
        i = i + 1;
        proof {
            assert(byte_rows(values@) =~= byte_rows(before).push(c.values@[i - 1]@));
            assert(byte_rows(c.values@).take(i as int) =~= byte_rows(c.values@).take(i - 1).push(c.values@[i - 1]@));
        }
    }
    let mut stamps: Vec<Option<String>> = Vec::new();
    let m = c.event_timestamps.len();
    let mut j: usize = 0;
    while j < m
        invariant
            m == c.event_timestamps@.len(),
            j <= m,
            crate::online::opt_views(stamps@) == crate::online::opt_views(c.event_timestamps@).take(j as int),
        decreases m - j,
    {
        let ghost before = stamps@;
        stamps.push(crate::config::clone_opt_string(&c.event_timestamps[j]));
        j = j + 1;
        proof {
            assert(crate::online::opt_views(stamps@) =~= crate::online::opt_views(before).push(
                crate::source::opt_view(c.event_timestamps@[j - 1]),
            ));
            assert(crate::online::opt_views(c.event_timestamps@).take(j as int) =~= crate::online::opt_views(
                c.event_timestamps@,
            ).take(j - 1).push(crate::source::opt_view(c.event_timestamps@[j - 1])));
        }
    }
    proof {
        assert(byte_rows(c.values@).take(n as int) =~= byte_rows(c.values@));
        assert(crate::online::opt_views(c.event_timestamps@).take(m as int) =~= crate::online::opt_views(
            c.event_timestamps@,
        ));
    }
    CachedValue { values, statuses: c.statuses.clone(), event_timestamps: stamps, cached_at: c.cached_at.clone() }
}

/// An entry and its copy stand for the same feature vector.
proof fn lemma_copy_restores(fv: FeatureVector, a: CachedValue, b: CachedValue)
    requires
        restores_vector(fv, a),
        byte_rows(a.values@) == byte_rows(b.values@),
        a.statuses@ == b.statuses@,
        crate::online::opt_views(a.event_timestamps@) == crate::online::opt_views(b.event_timestamps@),
    ensures
        restores_vector(fv, b),
{
    assert forall|i: int| 0 <= i < b.event_timestamps@.len() implies (#[trigger] fv.event_timestamps@[i]) == match b.event_timestamps@[i] {
        Some(t) => rfc3339_instant(t@),
        None => None,
    } by {
        assert(crate::online::opt_views(a.event_timestamps@).len() == a.event_timestamps@.len());
        assert(crate::online::opt_views(b.event_timestamps@).len() == b.event_timestamps@.len());
        assert(crate::online::opt_views(a.event_timestamps@)[i] == crate::source::opt_view(a.event_timestamps@[i]));
        assert(crate::online::opt_views(b.event_timestamps@)[i] == crate::source::opt_view(b.event_timestamps@[i]));
        assert(fv.event_timestamps@[i] == match a.event_timestamps@[i] {
            Some(t) => rfc3339_instant(t@),
            None => None,
        });
    }
    assert(crate::online::opt_views(a.event_timestamps@).len() == a.event_timestamps@.len());
    assert(crate::online::opt_views(b.event_timestamps@).len() == b.event_timestamps@.len());
}

/// Whether two cache keys have the same text in each part.
pub open spec fn same_key(a: CacheKey, b: CacheKey) -> bool {
    a.project@ == b.project@ && a.feature_view@ == b.feature_view@ && a.entity_key@ == b.entity_key@
}

/// What the cached store has just learnt while it serves a read.
#[derive(Debug)]
pub enum CachedReadEvent {
    /// The read came in.
    Begin,
    /// The first tier was asked for the key.
    FirstTier(Result<Option<CachedValue>, OfsError>),
    /// The second tier was asked for the key.
    SecondTier(Result<Option<CachedValue>, OfsError>),
    /// The inner store answered the read.
    Inner(Result<OnlineReadResponse, OfsError>),
}

/// What the cached store does next while it serves a read.
#[derive(Debug)]
pub enum CachedReadAction {
    /// Ask the first tier for the key.
    LookupFirst(CacheKey),
    /// Ask the second tier for the key.
    LookupSecond(CacheKey),
    /// Pass the read to the inner store.
    ReadInner,
    /// Store the entry in the first tier (whatever that gives), then answer.
    FillFirstAndAnswer { key: CacheKey, entry: CachedValue, response: OnlineReadResponse },
    /// Answer.
    Answer(OnlineReadResponse),
    /// Fail with the error.
    Fail(OfsError),
}

/// Serves a read through the tiers. `key` is the read's cache key, which
/// only a read of one entity of one feature view has
/// (`single_lookup_key`). The first tier is asked first; on a miss the
/// second; on a second-tier hit the entry also goes into the first tier; on
/// a miss of both, or for a read without a key, the inner store answers,
/// and its first result fills the first tier. A hit answers as a cached
/// entry does (`cached_response`); an error of a tier or of the inner store
/// fails the read.
pub fn cached_read_step(
    has_first: bool,
    has_second: bool,
    key: &Option<CacheKey>,
    features: &Vec<FeatureViewWithProjection>,
    event: CachedReadEvent,
) -> (r: CachedReadAction)
    ensures
        match event {
            CachedReadEvent::Begin => match key {
                Some(k) => if has_first {
                    r matches CachedReadAction::LookupFirst(k2) && same_key(k2, *k)
                } else if has_second {
                    r matches CachedReadAction::LookupSecond(k2) && same_key(k2, *k)
                } else {
                    r is ReadInner
                },
                None => r is ReadInner,
            },
            CachedReadEvent::FirstTier(Err(e)) => r == CachedReadAction::Fail(e),
            CachedReadEvent::FirstTier(Ok(Some(c))) => r matches CachedReadAction::Answer(resp)
                && views(resp.metadata.feature_names@) == crate::online::read_names(features@, 1)
                && resp.results@.len() == 1 && restores_vector(resp.results@[0], c),
            CachedReadEvent::FirstTier(Ok(None)) => match key {
                Some(k) => if has_second {
                    r matches CachedReadAction::LookupSecond(k2) && same_key(k2, *k)
                } else {
                    r is ReadInner
                },
                None => r is ReadInner,
            },
            CachedReadEvent::SecondTier(Err(e)) => r == CachedReadAction::Fail(e),
            CachedReadEvent::SecondTier(Ok(Some(c))) => {
                let answers = |resp: OnlineReadResponse|
                    views(resp.metadata.feature_names@) == crate::online::read_names(features@, 1)
                        && resp.results@.len() == 1 && restores_vector(resp.results@[0], c);
                if has_first && key is Some {
                    r matches CachedReadAction::FillFirstAndAnswer { key: k2, entry, response }
                        && same_key(k2, key->0) && entry == c && answers(response)
                } else {
                    r matches CachedReadAction::Answer(resp) && answers(resp)
                }
            },
            CachedReadEvent::SecondTier(Ok(None)) => r is ReadInner,
            CachedReadEvent::Inner(Err(e)) => r == CachedReadAction::Fail(e),
            CachedReadEvent::Inner(Ok(resp)) => if has_first && key is Some && resp.results@.len() > 0 {
                r matches CachedReadAction::FillFirstAndAnswer { key: k2, entry, response }
                    && same_key(k2, key->0) && caches_vector(entry, resp.results@[0]) && response == resp
            } else {
                r == CachedReadAction::Answer(resp)
            },
        },
{
    match event {
        CachedReadEvent::Begin => match key {
            Some(k) => if has_first {
                CachedReadAction::LookupFirst(copy_key(k))
            } else if has_second {
                CachedReadAction::LookupSecond(copy_key(k))
            } else {
                CachedReadAction::ReadInner
            },
            None => CachedReadAction::ReadInner,
        },
        CachedReadEvent::FirstTier(Err(e)) => CachedReadAction::Fail(e),
        CachedReadEvent::FirstTier(Ok(Some(c))) => CachedReadAction::Answer(cached_response(c, features)),
        CachedReadEvent::FirstTier(Ok(None)) => match key {
            Some(k) => if has_second {
                CachedReadAction::LookupSecond(copy_key(k))
            } else {
                CachedReadAction::ReadInner
            },
            None => CachedReadAction::ReadInner,
        },
        CachedReadEvent::SecondTier(Err(e)) => CachedReadAction::Fail(e),
        CachedReadEvent::SecondTier(Ok(Some(c))) => match key {
            Some(k) => if has_first {
                let copy = copy_cached(&c);
                let response = cached_response(copy, features);
                proof {
                    lemma_copy_restores(response.results@[0], copy, c);
                }
                CachedReadAction::FillFirstAndAnswer { key: copy_key(k), entry: c, response }
            } else {
                CachedReadAction::Answer(cached_response(c, features))
            },
            None => CachedReadAction::Answer(cached_response(c, features)),
        },
        CachedReadEvent::SecondTier(Ok(None)) => CachedReadAction::ReadInner,
        CachedReadEvent::Inner(Err(e)) => CachedReadAction::Fail(e),
        CachedReadEvent::Inner(Ok(resp)) => match key {
            Some(k) => if has_first {
                match build_cached_value(&resp) {
                    Some(entry) => CachedReadAction::FillFirstAndAnswer { key: copy_key(k), entry, response: resp },
                    None => CachedReadAction::Answer(resp),
                }
            } else {
                CachedReadAction::Answer(resp)
            },
            None => CachedReadAction::Answer(resp),
        },
    }
}

/// A set of entities of one feature view to keep in the cache.
#[derive(Debug, Clone)]
pub struct WarmEntry {
    pub project: String,
    pub feature_view: FeatureViewWithProjection,
    pub entity_keys: Vec<EntityKey>,
}

/// The warming schedule of a cache: the entries to keep warm and the pause
/// between two warming rounds. The store to read and the cache to fill are
/// the running service's.
pub struct CacheWarmer {
    entries: Vec<WarmEntry>,
    interval: crate::time::Duration,
}

impl CacheWarmer {
    /// A schedule with no entries that warms every `interval`.
    pub fn new(interval: crate::time::Duration) -> (r: Self)
        ensures
            r.entry_list()@.len() == 0,
            r.pause() == interval,
    {
        CacheWarmer { entries: Vec::new(), interval }
    }

    /// The entries to keep warm, in the order they are warmed.
    pub closed spec fn entry_list(&self) -> Vec<WarmEntry> {
        self.entries
    }

    /// The pause between two warming rounds.
    pub closed spec fn pause(&self) -> crate::time::Duration {
        self.interval
    }

    /// Adds an entry after the others.
    pub fn add_entry(&mut self, entry: WarmEntry)
        ensures
            final(self).entry_list()@ == old(self).entry_list()@.push(entry),
            final(self).pause() == old(self).pause(),
    {
        self.entries.push(entry);
    }

    /// The schedule with its entries replaced by `entries`.
    pub fn with_entries(self, entries: Vec<WarmEntry>) -> (r: Self)
        ensures
            r.entry_list() == entries,
            r.pause() == self.pause(),
    {
        CacheWarmer { entries, interval: self.interval }
    }

    /// The entries to keep warm.
    pub fn entries(&self) -> (r: &Vec<WarmEntry>)
        ensures
            *r == self.entry_list(),
    {
        &self.entries
    }

    /// The pause between two warming rounds.
    pub fn warm_interval(&self) -> (r: crate::time::Duration)
        ensures
            r == self.pause(),
    {
        self.interval
    }

    /// The positions of the entries that a round reads, in order: those
    /// with at least one entity; an entry without entities is skipped.
    pub fn round_targets(&self) -> (r: Vec<usize>)
        ensures
            forall|k: int| 0 <= k < r@.len() ==> (#[trigger] r@[k]) < self.entry_list()@.len(),
            forall|k: int|
                0 <= k < r@.len() ==> self.entry_list()@[#[trigger] r@[k] as int].entity_keys@.len() > 0,
            forall|k: int, l: int| 0 <= k < l < r@.len() ==> r@[k] < r@[l],
            forall|i: int|
                0 <= i < self.entry_list()@.len() && self.entry_list()@[i].entity_keys@.len() > 0 ==> r@.contains(
                    i as usize,
                ),
    {
        let mut out: Vec<usize> = Vec::new();
        let n = self.entries.len();
        let mut i: usize = 0;
        while i < n
            invariant
                n == self.entries@.len(),
                i <= n,
                forall|k: int| 0 <= k < out@.len() ==> (#[trigger] out@[k]) < i,
                forall|k: int|
                    0 <= k < out@.len() ==> self.entries@[#[trigger] out@[k] as int].entity_keys@.len() > 0,
                forall|k: int, l: int| 0 <= k < l < out@.len() ==> out@[k] < out@[l],
                forall|j: int|
                    0 <= j < i && self.entries@[j].entity_keys@.len() > 0 ==> out@.contains(j as usize),
            decreases n - i,
        {
            if self.entries[i].entity_keys.len() > 0 {
                let ghost before = out@;
                out.push(i);
                proof {
                    assert forall|j: int|
                        0 <= j < i + 1 && self.entries@[j].entity_keys@.len() > 0 implies out@.contains(
                            j as usize,
                        ) by {
                        if j < i {
                            let k = choose|k: int| 0 <= k < before.len() && before[k] == j as usize;
                            assert(out@[k] == j as usize);
                        } else {
                            assert(out@[out@.len() - 1] == i);
                        }
                    }
                }
            }
            i = i + 1;
        }
        out
    }
}

/// The cache entries that warming stores for an entry, given the read of
/// its entities: one per entity that the read has a result for, under the
/// entity's key, caching that result, all cached at the given time.
pub fn warm_values(entry: &WarmEntry, response: &OnlineReadResponse, cached_at: &str) -> (r: Vec<(CacheKey, CachedValue)>)
    ensures
        r@.len() == if entry.entity_keys@.len() <= response.results@.len() {
            entry.entity_keys@.len()
        } else {
            response.results@.len()
        },
        forall|i: int| 0 <= i < r@.len() ==> {
            &&& is_cache_key(
                (#[trigger] r@[i]).0,
                entry.project@,
                entry.feature_view.feature_view.name@,
                entry.entity_keys@[i],
            )
            &&& caches_vector(r@[i].1, response.results@[i])
            &&& r@[i].1.cached_at@ == cached_at@
        },
{
    let n = entry.entity_keys.len();
    let mut out: Vec<(CacheKey, CachedValue)> = Vec::new();
    let mut i: usize = 0;
    while i < n
        invariant_except_break
            n == entry.entity_keys@.len(),
            i <= n,
            i <= response.results@.len(),
            out@.len() == i,
            forall|j: int| 0 <= j < i ==> {
                &&& is_cache_key(
                    (#[trigger] out@[j]).0,
                    entry.project@,
                    entry.feature_view.feature_view.name@,
                    entry.entity_keys@[j],
                )
                &&& caches_vector(out@[j].1, response.results@[j])
                &&& out@[j].1.cached_at@ == cached_at@
            },
        ensures
            out@.len() == if n <= response.results@.len() {
                n as int
            } else {
                response.results@.len() as int
            },
            forall|j: int| 0 <= j < out@.len() ==> {
                &&& is_cache_key(
                    (#[trigger] out@[j]).0,
                    entry.project@,
                    entry.feature_view.feature_view.name@,
                    entry.entity_keys@[j],
                )
                &&& caches_vector(out@[j].1, response.results@[j])
                &&& out@[j].1.cached_at@ == cached_at@
            },
        decreases n - i,
    {
        if i >= response.results.len() {
            break;
        }
        let k = build_cache_key(
            entry.project.as_str(),
            entry.feature_view.feature_view.name.as_str(),
            &entry.entity_keys[i],
        );
        let v = cache_vector(&response.results[i], String::from_str(cached_at));
        out.push((k, v));
        i = i + 1;
    }
    out
}

/// A write of a record invalidates the very entry that a read of that
/// record's entity in that record's feature view looks up: the key of the
/// record among the invalidated keys and the read's key are the same key.
pub proof fn lemma_write_invalidates_read(
    data: Seq<OnlineWriteRecord>,
    invalidated: Seq<CacheKey>,
    project: Seq<char>,
    i: int,
    read_key: CacheKey,
    fv_name: Seq<char>,
)
    requires
        0 <= i < data.len(),
        invalidated.len() == data.len(),
        forall|j: int| 0 <= j < data.len() ==> is_cache_key(
            #[trigger] invalidated[j],
            project,
            data[j].feature_view_name@,
            data[j].entity_key,
        ),
        fv_name == data[i].feature_view_name@,
        is_cache_key(read_key, project, fv_name, data[i].entity_key),
    ensures
        invalidated[i].project@ == read_key.project@,
        invalidated[i].feature_view@ == read_key.feature_view@,
        invalidated[i].entity_key@ == read_key.entity_key@,
        cache_key_text(invalidated[i]) == cache_key_text(read_key),
{
}

/// A status other than `OutsideMaxAge` reads back from its cached code as
/// itself.
pub proof fn lemma_status_code_roundtrip(s: FieldStatus)
    requires
        s != FieldStatus::OutsideMaxAge,
    ensures
        cached_status(field_status_code(s)) == s,
{
}

/// What a cache hit answers is what was read when the entry was cached:
/// the same values; the same statuses when none of them is `OutsideMaxAge`
/// (which the cache keeps as a code that reads back as `NotFound`); and the
/// same event times when each lies in the years 0 to 9999 and is no leap
/// second (the times that chrono's RFC 3339 text reads back).
pub proof fn lemma_cache_hit_answers_read(read: FeatureVector, entry: CachedValue, hit: FeatureVector)
    requires
        caches_vector(entry, read),
        restores_vector(hit, entry),
    ensures
        byte_rows(hit.values@) == byte_rows(read.values@),
        hit.event_timestamps@.len() == read.event_timestamps@.len(),
        (forall|i: int| 0 <= i < read.statuses@.len() ==> #[trigger] read.statuses@[i] != FieldStatus::OutsideMaxAge)
            ==> hit.statuses@ == read.statuses@,
        (forall|i: int|
            0 <= i < read.event_timestamps@.len() ==> (#[trigger] read.event_timestamps@[i] matches Some(d)
                ==> rfc3339_round_trips(d))) ==> hit.event_timestamps@ == read.event_timestamps@,
{
    if forall|i: int|
        0 <= i < read.event_timestamps@.len() ==> (#[trigger] read.event_timestamps@[i] matches Some(d)
            ==> rfc3339_round_trips(d)) {
        assert forall|i: int| 0 <= i < read.event_timestamps@.len() implies hit.event_timestamps@[i]
            == read.event_timestamps@[i] by {
            assert(read.event_timestamps@[i] matches Some(d) ==> rfc3339_round_trips(d));
            assert(match (entry.event_timestamps@[i], read.event_timestamps@[i]) {
                (Some(t), Some(d)) => is_rfc3339_of(t@, d),
                (None, None) => true,
                _ => false,
            });
        }
        assert(hit.event_timestamps@ =~= read.event_timestamps@);
    }
    if forall|i: int| 0 <= i < read.statuses@.len() ==> #[trigger] read.statuses@[i] != FieldStatus::OutsideMaxAge {
        assert forall|i: int| 0 <= i < read.statuses@.len() implies hit.statuses@[i] == read.statuses@[i] by {
            lemma_status_code_roundtrip(read.statuses@[i]);
        }
        assert(hit.statuses@ =~= read.statuses@);
    }
}

} // verus!
