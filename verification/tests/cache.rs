use ofs::cache::{
    build_cache_key, cache_vector, cached_response, cached_value_of, invalidation_keys, l2_hit_to_response,
    plan_cache_tiers, single_lookup_key, cached_read_step, CachedReadAction, CachedReadEvent, warm_values, CacheKey, CacheWarmer, CachedValue, L2Cache, WarmEntry,
};
use ofs::errors::OfsError;
use ofs::config::{CacheConfig, RedisCacheConfig};
use ofs::online::{FeatureVector, FieldStatus, OnlineReadResponse, OnlineResponseMetadata};
use ofs::time::{Duration, UtcDateTime};
use ofs::types::{EntityKey, Feature, FeatureView, FeatureViewProjection, FeatureViewWithProjection, OnlineWriteRecord};
use ofs::value_type::ValueType;
use std::collections::HashMap;

fn make_key(ek: &str) -> CacheKey {
    CacheKey { project: "default".to_string(), feature_view: "driver_stats".to_string(), entity_key: ek.to_string() }
}

fn make_fvp(name: &str, features: Vec<&str>) -> FeatureViewWithProjection {
    let fv_features: Vec<Feature> = features.iter().map(|f| Feature::new(f, ValueType::String)).collect();
    FeatureViewWithProjection {
        feature_view: FeatureView::new(name),
        projection: FeatureViewProjection {
            feature_view_name: name.to_string(),
            feature_view_name_alias: None,
            feature_columns: fv_features,
            join_key_map: HashMap::new(),
            timestamp_field: None,
            date_partition_column: None,
            created_timestamp_column: None,
            batch_source: None,
            stream_source: None,
            view_type: "FeatureView".to_string(),
        },
    }
}

fn read_of(values: Vec<&[u8]>, status: FieldStatus) -> OnlineReadResponse {
    let n = values.len();
    OnlineReadResponse {
        metadata: OnlineResponseMetadata { feature_names: vec!["driver_stats__conv_rate".to_string()] },
        results: vec![FeatureVector {
            values: values.iter().map(|v| v.to_vec()).collect(),
            statuses: vec![status; n],
            event_timestamps: vec![Some(UtcDateTime { secs: 1704067200, nanos: 0 }); n],
        }],
    }
}

#[test]
fn l2_test_redis_key_format() {
    let cache = L2Cache::new_mock("redis://127.0.0.1:6379", "test_", 300);
    let key = make_key("driver-1");
    let rk = cache.redis_key(&key);
    assert_eq!(rk, "test_ofs:cache:default:driver_stats:driver-1");
    assert_eq!(cache.clear_pattern(), "test_ofs:cache:*");
}

#[test]
fn cache_key_text() {
    assert_eq!(make_key("d1").to_string(), "default:driver_stats:d1");
    let ek = EntityKey::new(vec!["a".to_string(), "b".to_string()]);
    let k = build_cache_key("p", "fv", &ek);
    assert_eq!(k.entity_key, "a:b");
}

/// Serves a read through `cached_read_step` with a first tier held in a
/// vector and an inner store that always answers `0.85`.
fn serve(first: &mut Vec<(CacheKey, CachedValue)>, ek: &EntityKey, fvp: &FeatureViewWithProjection) -> OnlineReadResponse {
    let features = vec![fvp.clone()];
    let key = single_lookup_key(&vec![ek.clone()], &features, "default");
    let mut action = cached_read_step(true, false, &key, &features, CachedReadEvent::Begin);
    loop {
        action = match action {
            CachedReadAction::LookupFirst(k) => {
                let hit = first.iter().find(|(kk, _)| *kk == k).map(|(_, v)| v.clone());
                cached_read_step(true, false, &key, &features, CachedReadEvent::FirstTier(Ok(hit)))
            }
            CachedReadAction::ReadInner => {
                let inner = read_of(vec![b"0.85"], FieldStatus::Present);
                cached_read_step(true, false, &key, &features, CachedReadEvent::Inner(Ok(inner)))
            }
            CachedReadAction::FillFirstAndAnswer { key, entry, response } => {
                first.push((key, entry));
                return response;
            }
            CachedReadAction::Answer(r) => return r,
            other => panic!("unexpected {:?}", other),
        };
    }
}

#[test]
fn test_cache_hit() {
    let config = CacheConfig { enabled: true, max_size: 100, ttl_secs: 300, redis: None };
    assert!(plan_cache_tiers(&config).l1.is_some());
    let mut first: Vec<(CacheKey, CachedValue)> = Vec::new();
    let ek = EntityKey::new(vec!["driver-1".to_string()]);
    let fvp = make_fvp("driver_stats", vec!["conv_rate"]);
    // First call: a miss, which fills the first tier.
    let r1 = serve(&mut first, &ek, &fvp);
    assert_eq!(r1.results[0].values[0], b"0.85");
    assert_eq!(first.len(), 1);
    // Second call: a hit, answered from the first tier.
    let r2 = serve(&mut first, &ek, &fvp);
    assert_eq!(r2.results[0].values[0], b"0.85");
    assert_eq!(first.len(), 1);
}

#[test]
fn cached_entry_round_trip() {
    let first = read_of(vec![b"0.85"], FieldStatus::Present);
    let entry = cached_value_of(&first, "2024-06-01T00:00:00+00:00".to_string()).unwrap();
    assert_eq!(entry.statuses, vec![1]);
    assert_eq!(entry.event_timestamps, vec![Some("2024-01-01T00:00:00+00:00".to_string())]);
    let fvp = make_fvp("driver_stats", vec!["conv_rate"]);
    let hit = cached_response(entry, &vec![fvp]);
    assert_eq!(hit.results[0].values[0], b"0.85");
    assert_eq!(hit.results[0].statuses, vec![FieldStatus::Present]);
    assert_eq!(hit.results[0].event_timestamps, vec![Some(UtcDateTime { secs: 1704067200, nanos: 0 })]);
    assert_eq!(hit.metadata.feature_names, vec!["driver_stats__conv_rate".to_string()]);
}

#[test]
fn test_write_invalidates_cache() {
    let ek = EntityKey::new(vec!["driver-1".to_string()]);
    let record = OnlineWriteRecord {
        entity_key: ek.clone(),
        values: vec![("conv_rate".to_string(), b"0.92".to_vec())],
        timestamp: UtcDateTime { secs: 1, nanos: 0 },
        feature_view_name: "driver_stats".to_string(),
    };
    let keys = invalidation_keys(&vec![record], "default");
    let read_key = single_lookup_key(&vec![ek], &vec![make_fvp("driver_stats", vec!["conv_rate"])], "default").unwrap();
    assert_eq!(keys, vec![read_key]);
}

#[test]
fn lookup_needs_one_entity_and_one_view() {
    let ek = EntityKey::new(vec!["d".to_string()]);
    let fvp = make_fvp("fv", vec!["f"]);
    assert!(single_lookup_key(&vec![ek.clone(), ek.clone()], &vec![fvp.clone()], "p").is_none());
    assert!(single_lookup_key(&vec![ek.clone()], &vec![fvp.clone(), fvp.clone()], "p").is_none());
    assert!(single_lookup_key(&vec![ek], &vec![fvp], "p").is_some());
}

#[test]
fn unknown_cached_codes_read_as_not_found() {
    let entry = CachedValue {
        values: vec![Vec::new(), Vec::new()],
        statuses: vec![0, 9],
        event_timestamps: vec![None, Some("not a time".to_string())],
        cached_at: String::new(),
    };
    let hit = l2_hit_to_response(entry, &vec![make_fvp("fv", vec!["a", "b"])]);
    assert_eq!(hit.results[0].statuses, vec![FieldStatus::Invalid, FieldStatus::NotFound]);
    assert_eq!(hit.results[0].event_timestamps, vec![None, None]);
}

#[test]
fn tiers_of_config() {
    let tiers = plan_cache_tiers(&CacheConfig::default());
    assert_eq!(tiers.l1, Some((10_000, 300)));
    assert!(tiers.l2.is_none());
    let mut with_redis = CacheConfig::default();
    with_redis.enabled = false;
    with_redis.redis = Some(RedisCacheConfig {
        nodes: vec!["redis://n1".to_string(), "redis://n2".to_string()],
        password: None,
        mode: None,
        key_prefix: None,
        default_ttl_secs: Some(60),
    });
    let tiers = plan_cache_tiers(&with_redis);
    assert!(tiers.l1.is_none());
    let l2 = tiers.l2.unwrap();
    assert_eq!(l2.connection_string, "redis://n1");
    assert_eq!(l2.key_prefix, "");
    assert_eq!(l2.default_ttl_secs, 60);
}

#[test]
fn test_warm_with_entry() {
    let entry = WarmEntry {
        project: "default".to_string(),
        feature_view: make_fvp("driver_stats", vec!["conv_rate"]),
        entity_keys: vec![EntityKey::new(vec!["driver-1".to_string()]), EntityKey::new(vec!["driver-2".to_string()])],
    };
    let response = read_of(vec![b"0.85"], FieldStatus::Present);
    let warmed = warm_values(&entry, &response, "now");
    assert_eq!(warmed.len(), 1);
    assert_eq!(warmed[0].0, make_key("driver-1"));
    assert_eq!(warmed[0].1.values, vec![b"0.85".to_vec()]);
    assert_eq!(warmed[0].1.cached_at, "now");
}

#[test]
fn outside_max_age_is_cached_as_code_four() {
    let fv = FeatureVector { values: vec![Vec::new()], statuses: vec![FieldStatus::OutsideMaxAge], event_timestamps: vec![None] };
    let entry = cache_vector(&fv, String::new());
    assert_eq!(entry.statuses, vec![4]);
}

#[test]
fn warmer_skips_entries_without_entities() {
    let empty = WarmEntry {
        project: "default".to_string(),
        feature_view: make_fvp("a", vec!["x"]),
        entity_keys: vec![],
    };
    let full = WarmEntry {
        project: "default".to_string(),
        feature_view: make_fvp("b", vec!["y"]),
        entity_keys: vec![EntityKey::new(vec!["k".to_string()])],
    };
    let mut warmer = CacheWarmer::new(Duration::from_secs(30));
    warmer.add_entry(empty.clone());
    warmer.add_entry(full.clone());
    assert_eq!(warmer.round_targets(), vec![1]);
    let warmer = warmer.with_entries(vec![full.clone(), empty, full]);
    assert_eq!(warmer.round_targets(), vec![0, 2]);
    assert_eq!(warmer.warm_interval().secs, 30);
}

#[test]
fn test_create_warmer() {
    let warmer = CacheWarmer::new(Duration::from_secs(60));
    assert!(warmer.entries().is_empty());
}

#[test]
fn cached_read_goes_through_the_tiers() {
    let features = vec![make_fvp("driver_stats", vec!["conv_rate"])];
    let key = Some(make_key("driver-1"));
    // First tier first, then the second, then the inner store.
    assert!(matches!(cached_read_step(true, true, &key, &features, CachedReadEvent::Begin), CachedReadAction::LookupFirst(k) if k == make_key("driver-1")));
    assert!(matches!(cached_read_step(false, true, &key, &features, CachedReadEvent::Begin), CachedReadAction::LookupSecond(_)));
    assert!(matches!(cached_read_step(true, true, &None, &features, CachedReadEvent::Begin), CachedReadAction::ReadInner));
    assert!(matches!(cached_read_step(true, true, &key, &features, CachedReadEvent::FirstTier(Ok(None))), CachedReadAction::LookupSecond(_)));
    assert!(matches!(cached_read_step(true, false, &key, &features, CachedReadEvent::FirstTier(Ok(None))), CachedReadAction::ReadInner));
    assert!(matches!(cached_read_step(true, true, &key, &features, CachedReadEvent::SecondTier(Ok(None))), CachedReadAction::ReadInner));
    let entry = CachedValue {
        values: vec![b"0.85".to_vec()],
        statuses: vec![1],
        event_timestamps: vec![None],
        cached_at: "now".to_string(),
    };
    match cached_read_step(true, true, &key, &features, CachedReadEvent::FirstTier(Ok(Some(entry.clone())))) {
        CachedReadAction::Answer(resp) => assert_eq!(resp.results[0].values, vec![b"0.85".to_vec()]),
        other => panic!("unexpected {:?}", other),
    }
    // A second-tier hit also fills the first tier.
    match cached_read_step(true, true, &key, &features, CachedReadEvent::SecondTier(Ok(Some(entry)))) {
        CachedReadAction::FillFirstAndAnswer { key: k, entry, response } => {
            assert_eq!(k, make_key("driver-1"));
            assert_eq!(entry.values, vec![b"0.85".to_vec()]);
            assert_eq!(response.results[0].statuses, vec![FieldStatus::Present]);
        }
        other => panic!("unexpected {:?}", other),
    }
    // The inner store's answer fills the first tier and is returned.
    let inner = read_of(vec![b"0.5"], FieldStatus::Present);
    match cached_read_step(true, true, &key, &features, CachedReadEvent::Inner(Ok(inner))) {
        CachedReadAction::FillFirstAndAnswer { entry, response, .. } => {
            assert_eq!(entry.values, vec![b"0.5".to_vec()]);
            assert_eq!(entry.statuses, vec![1]);
            assert_eq!(response.results[0].values, vec![b"0.5".to_vec()]);
        }
        other => panic!("unexpected {:?}", other),
    }
    let inner = read_of(vec![b"0.5"], FieldStatus::Present);
    assert!(matches!(cached_read_step(false, true, &key, &features, CachedReadEvent::Inner(Ok(inner))), CachedReadAction::Answer(_)));
    assert!(matches!(
        cached_read_step(true, true, &key, &features, CachedReadEvent::FirstTier(Err(OfsError::Redis("down".to_string())))),
        CachedReadAction::Fail(OfsError::Redis(_))
    ));
}

#[test]
fn cache_keys_tell_entity_values_apart() {
    let mut a = EntityKey::new(vec!["driver_id".to_string()]);
    a.entity_values.push(b"1001".to_vec());
    a.value_types.push(ValueType::String);
    let mut b = EntityKey::new(vec!["driver_id".to_string()]);
    b.entity_values.push(b"1002".to_vec());
    b.value_types.push(ValueType::String);
    let ka = build_cache_key("default", "driver_stats", &a);
    let kb = build_cache_key("default", "driver_stats", &b);
    assert_eq!(ka.entity_key, "driver_id:31303031");
    assert_ne!(ka, kb);
}

#[test]
fn cache_hit_restores_fractional_event_times() {
    let read = OnlineReadResponse {
        metadata: OnlineResponseMetadata { feature_names: vec!["driver_stats__conv_rate".to_string()] },
        results: vec![FeatureVector {
            values: vec![b"0.5".to_vec()],
            statuses: vec![FieldStatus::Present],
            event_timestamps: vec![Some(UtcDateTime { secs: 1_718_000_123, nanos: 456_789_000 })],
        }],
    };
    let entry = cached_value_of(&read, "now".to_string()).unwrap();
    assert_eq!(entry.event_timestamps, vec![Some("2024-06-10T06:15:23.456789+00:00".to_string())]);
    let hit = cached_response(entry, &vec![make_fvp("driver_stats", vec!["conv_rate"])]);
    assert_eq!(hit.results[0].event_timestamps, read.results[0].event_timestamps);
}
