use ofs::online::{
    assemble_online_read, entity_key_to_hex, redis_entry_expired, redis_expired_keys, redis_write, found_vector, missing_vector, redis_hash_vector, redis_key,
    sqlite_create_table, sqlite_drop_table, sqlite_insert_row, sqlite_purge_rows, sqlite_row_vector,
    sqlite_select_row, sqlite_table_name, sqlite_write, FieldStatus, SqliteRow,
};
use ofs::time::UtcDateTime;
use ofs::types::{
    EntityKey, Feature, FeatureView, FeatureViewProjection, FeatureViewWithProjection, OnlineWriteRecord,
};
use ofs::value_type::ValueType;
use std::collections::HashMap;

fn make_fvp(name: &str, features: Vec<&str>) -> FeatureViewWithProjection {
    let fv_features: Vec<Feature> = features.iter().map(|f| Feature::new(f, ValueType::String)).collect();
    FeatureViewWithProjection {
        feature_view: FeatureView::new(name),
        projection: FeatureViewProjection {
            feature_view_name: name.to_string(),
            feature_view_name_alias: None,
            feature_columns: fv_features,
            join_key_map: HashMap::new(),
            timestamp_field: None,
            date_partition_column: None,
            created_timestamp_column: None,
            batch_source: None,
            stream_source: None,
            view_type: "FeatureView".to_string(),
        },
    }
}

#[test]
fn sqlite_table_and_statements() {
    let table = sqlite_table_name("default", "driver_stats");
    assert_eq!(table, "__ofs_default__driver_stats");
    let cols = vec!["conv_rate".to_string(), "acc_rate".to_string()];
    assert_eq!(
        sqlite_create_table(&table, &cols),
        "CREATE TABLE IF NOT EXISTS \"__ofs_default__driver_stats\" (entity_key TEXT PRIMARY KEY NOT NULL, \"conv_rate\" BLOB, \"acc_rate\" BLOB, event_ts TEXT NOT NULL)"
    );
    assert_eq!(
        sqlite_select_row(&table, &cols),
        "SELECT entity_key, \"conv_rate\", \"acc_rate\", event_ts FROM \"__ofs_default__driver_stats\" WHERE entity_key = ?"
    );
    assert_eq!(
        sqlite_select_row(&table, &Vec::new()),
        "SELECT entity_key, event_ts FROM \"__ofs_default__driver_stats\" WHERE entity_key = ?"
    );
    assert_eq!(
        sqlite_insert_row(&table, &cols),
        "INSERT OR REPLACE INTO \"__ofs_default__driver_stats\" (entity_key, \"conv_rate\", \"acc_rate\", event_ts) VALUES (?1, ?2, ?3, ?4)"
    );
    assert_eq!(sqlite_drop_table(&table), "DROP TABLE IF EXISTS \"__ofs_default__driver_stats\"");
    assert_eq!(sqlite_purge_rows(&table), "DELETE FROM \"__ofs_default__driver_stats\" WHERE event_ts < ?");
}

#[test]
fn sqlite_write_then_read_values() {
    let ek = EntityKey::new(vec!["driver_id".to_string()]);
    let record = OnlineWriteRecord {
        entity_key: ek.clone(),
        values: vec![("conv_rate".to_string(), b"0.85".to_vec()), ("acc_rate".to_string(), b"0.92".to_vec())],
        timestamp: UtcDateTime { secs: 1704067200, nanos: 250_000_000 },
        feature_view_name: "driver_stats".to_string(),
    };
    let w = sqlite_write(&record, "default").unwrap();
    assert_eq!(w.table, "__ofs_default__driver_stats");
    assert_eq!(w.values, vec![b"0.85".to_vec(), b"0.92".to_vec()]);
    assert_eq!(w.event_ts, "2024-01-01T00:00:00.250Z");
    assert_eq!(w.key_hex, entity_key_to_hex(&ek));

    let row = SqliteRow { event_ts: "2024-01-01T00:00:00.250Z".to_string(), values: vec![Some(b"0.85".to_vec()), Some(b"0.92".to_vec())] };
    let fv = sqlite_row_vector(Some(row), 2);
    assert_eq!(fv.values[0], b"0.85");
    assert_eq!(fv.values[1], b"0.92");
    assert_eq!(fv.statuses, vec![FieldStatus::Present, FieldStatus::Present]);
    assert_eq!(fv.event_timestamps[0], Some(UtcDateTime { secs: 1704067200, nanos: 250_000_000 }));
}

#[test]
fn sqlite_write_skips_empty_record() {
    let record = OnlineWriteRecord {
        entity_key: EntityKey::new(vec!["k".to_string()]),
        values: Vec::new(),
        timestamp: UtcDateTime { secs: 0, nanos: 0 },
        feature_view_name: "fv".to_string(),
    };
    assert!(sqlite_write(&record, "p").is_none());
}

#[test]
fn read_missing_entity_is_not_found() {
    let fv = sqlite_row_vector(None, 1);
    assert_eq!(fv.statuses[0], FieldStatus::NotFound);
    assert_eq!(fv.values, vec![Vec::<u8>::new()]);
    assert_eq!(fv.event_timestamps, vec![None]);
}

#[test]
fn null_column_is_null_value() {
    let fv = found_vector(vec![None, Some(b"x".to_vec())], None);
    assert_eq!(fv.statuses, vec![FieldStatus::NullValue, FieldStatus::Present]);
    assert_eq!(fv.values[0], Vec::<u8>::new());
    let m = missing_vector(3);
    assert_eq!(m.statuses.len(), 3);
}

#[test]
fn redis_key_format() {
    let ek = EntityKey::new(vec!["driver_id".to_string()]);
    let key = redis_key("default", "driver_stats", &ek);
    assert_eq!(key, format!("ofs:default:driver_stats:{}", entity_key_to_hex(&ek)));
    assert_eq!(entity_key_to_hex(&ek), "00000000");
}

#[test]
fn redis_hash_values_and_time() {
    let fields = vec![
        ("_event_ts".to_string(), "2024-01-01T00:00:00Z".to_string()),
        ("conv_rate".to_string(), "0.85".to_string()),
    ];
    let names = vec!["conv_rate".to_string(), "acc_rate".to_string(), "conv_rate".to_string()];
    let fv = redis_hash_vector(Some(fields), &names);
    assert_eq!(fv.values[0], b"0.85");
    assert_eq!(fv.statuses, vec![FieldStatus::Present, FieldStatus::NullValue, FieldStatus::NullValue]);
    assert_eq!(fv.event_timestamps[0], Some(UtcDateTime { secs: 1704067200, nanos: 0 }));
    let missing = redis_hash_vector(None, &names);
    assert_eq!(missing.statuses, vec![FieldStatus::NotFound; 3]);
}

#[test]
fn read_names_repeat_per_entity() {
    let fvp = make_fvp("driver_stats", vec!["conv_rate", "acc_rate"]);
    let resp = assemble_online_read(&vec![fvp], 2, vec![vec![missing_vector(2), missing_vector(2)]]);
    assert_eq!(
        resp.metadata.feature_names,
        vec![
            "driver_stats__conv_rate".to_string(),
            "driver_stats__acc_rate".to_string(),
            "driver_stats__conv_rate".to_string(),
            "driver_stats__acc_rate".to_string()
        ]
    );
    assert_eq!(resp.results.len(), 2);
}

#[test]
fn field_status_codes_and_names() {
    assert_eq!(FieldStatus::Present.code(), 1);
    assert_eq!(FieldStatus::OutsideMaxAge.code(), 4);
    assert_eq!(FieldStatus::from_cached_code(2), FieldStatus::NullValue);
    assert_eq!(FieldStatus::from_cached_code(7), FieldStatus::NotFound);
    assert_eq!(FieldStatus::NotFound.name(), "NotFound");
}

#[test]
fn redis_purge_picks_expired_entries() {
    // 2024-01-01T00:00:00Z is 1704067200.
    let cutoff = UtcDateTime { secs: 1704067200, nanos: 1 };
    assert!(redis_entry_expired(&Some("2024-01-01T00:00:00Z".to_string()), &cutoff));
    assert!(!redis_entry_expired(&Some("2024-01-01T00:00:00.000000001Z".to_string()), &cutoff));
    assert!(!redis_entry_expired(&Some("yesterday".to_string()), &cutoff));
    assert!(!redis_entry_expired(&None, &cutoff));
    let keys = vec!["ofs:p:fv:a".to_string(), "ofs:p:fv:b".to_string(), "ofs:p:fv:c".to_string()];
    let ts = vec![
        Some("2023-12-31T23:00:00+00:00".to_string()),
        None,
        Some("2023-12-31T20:00:00-05:00".to_string()),
    ];
    assert_eq!(redis_expired_keys(&keys, &ts, &cutoff), vec!["ofs:p:fv:a".to_string()]);
}

#[test]
fn redis_online_test_redis_key_format() {
    let ek = EntityKey::new(vec!["driver_id".to_string()]);
    let key = redis_key("default", "driver_stats", &ek);
    assert!(key.starts_with("ofs:default:driver_stats:"));
}

#[test]
fn test_read_missing_entity() {
    let fvp = make_fvp("driver_stats", vec!["conv_rate"]);
    // No row is stored for the entity.
    let vector = sqlite_row_vector(None, fvp.projection.feature_columns.len());
    let response = assemble_online_read(&vec![fvp], 1, vec![vec![vector]]);
    assert_eq!(response.results.len(), 1);
    assert_eq!(response.results[0].statuses[0], FieldStatus::NotFound);
}

#[test]
fn redis_write_then_read_gives_back_the_values() {
    let record = OnlineWriteRecord {
        entity_key: EntityKey::new(vec!["driver_id".to_string()]),
        values: vec![("conv_rate".to_string(), b"0.85".to_vec()), ("acc_rate".to_string(), b"0.9".to_vec())],
        timestamp: UtcDateTime { secs: 1704067200, nanos: 250_000_000 },
        feature_view_name: "driver_stats".to_string(),
    };
    let w = redis_write(&record, "default");
    assert!(w.key.starts_with("ofs:default:driver_stats:"));
    assert_eq!(w.fields[0], ("_event_ts".to_string(), b"2024-01-01T00:00:00.250Z".to_vec()));
    assert_eq!(w.fields[1], ("conv_rate".to_string(), b"0.85".to_vec()));
    // The hash as a read gives it back.
    let hash: Vec<(String, String)> =
        w.fields.iter().map(|(k, v)| (k.clone(), String::from_utf8(v.clone()).unwrap())).collect();
    let fv = redis_hash_vector(Some(hash), &vec!["acc_rate".to_string(), "conv_rate".to_string(), "missing".to_string()]);
    assert_eq!(fv.values[0], b"0.9".to_vec());
    assert_eq!(fv.values[1], b"0.85".to_vec());
    assert_eq!(fv.statuses[2], FieldStatus::NullValue);
    assert_eq!(fv.event_timestamps[0], Some(UtcDateTime { secs: 1704067200, nanos: 250_000_000 }));
}

#[test]
fn online_read_layout_is_view_major() {
    let a = make_fvp("a", vec!["x"]);
    let b = make_fvp("b", vec!["y"]);
    let per_view = vec![
        vec![found_vector(vec![Some(b"a1".to_vec())], None), found_vector(vec![Some(b"a2".to_vec())], None)],
        vec![found_vector(vec![Some(b"b1".to_vec())], None), found_vector(vec![Some(b"b2".to_vec())], None)],
    ];
    let resp = assemble_online_read(&vec![a, b], 2, per_view);
    let firsts: Vec<Vec<u8>> = resp.results.iter().map(|v| v.values[0].clone()).collect();
    assert_eq!(firsts, vec![b"a1".to_vec(), b"a2".to_vec(), b"b1".to_vec(), b"b2".to_vec()]);
    assert_eq!(resp.metadata.feature_names, vec!["a__x", "a__x", "b__y", "b__y"]);
}
