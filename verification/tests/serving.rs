use ofs::online::{FeatureVector, FieldStatus, OnlineReadResponse, OnlineResponseMetadata, entity_key_to_hex};
use ofs::serving::{
    answer_rows, effective_rps, entity_keys_from_columns, format_request_id, is_rate_limit_exempt, make_request_id,
    match_requested_features, parse_entity_key, push_entity_key, push_response,
};
use ofs::types::{EntityKey, Feature, FeatureView};
use ofs::value_type::ValueType;

#[test]
fn test_request_id_format() {
    let mut counter = 0u64;
    let id = make_request_id(&mut counter);
    assert!(id.starts_with("req-"));
    assert!(id.len() > 10);
}

#[test]
fn test_request_id_unique() {
    let mut counter = 0u64;
    let a = make_request_id(&mut counter);
    let b = make_request_id(&mut counter);
    assert_ne!(a, b);
}

#[test]
fn request_id_is_lower_hex() {
    assert_eq!(format_request_id(0x65a1b2c3, 0), "req-65a1b2c3-0");
    assert_eq!(format_request_id(255, 4096), "req-ff-1000");
}

#[test]
fn rate_limit_spares_health_and_docs() {
    assert!(is_rate_limit_exempt("/v1/health"));
    assert!(is_rate_limit_exempt("/v1/ready"));
    assert!(is_rate_limit_exempt("/v1/metrics"));
    assert!(is_rate_limit_exempt("/docs/index.html"));
    assert!(!is_rate_limit_exempt("/v1/features:get-online"));
    assert_eq!(effective_rps(0), 1);
    assert_eq!(effective_rps(250), 250);
}

#[test]
fn parse_entity_key_reads_hex_v3() {
    let ek = EntityKey {
        join_keys: vec!["driver_id".to_string()],
        entity_values: vec![b"1001".to_vec()],
        value_types: vec![ValueType::String],
    };
    let hex = entity_key_to_hex(&ek);
    let parsed = parse_entity_key(&hex);
    assert_eq!(parsed.join_keys, ek.join_keys);
    assert_eq!(parsed.entity_values, ek.entity_values);
    assert_eq!(parsed.value_types, ek.value_types);
}

#[test]
fn parse_entity_key_falls_back_to_one_key() {
    let parsed = parse_entity_key("driver-1");
    assert_eq!(parsed.join_keys, vec!["driver-1".to_string()]);
    assert!(parsed.entity_values.is_empty());
    let parsed_odd = parse_entity_key("abc");
    assert_eq!(parsed_odd.join_keys, vec!["abc".to_string()]);
}

#[test]
fn entity_keys_by_row() {
    let columns = vec![
        ("driver_id".to_string(), vec!["1".to_string(), "2".to_string()]),
        ("city".to_string(), vec!["\"x\"".to_string()]),
    ];
    let keys = entity_keys_from_columns(&columns);
    assert_eq!(keys.len(), 2);
    assert_eq!(keys[0].join_keys, vec!["driver_id".to_string(), "city".to_string()]);
    assert_eq!(keys[0].entity_values, vec![b"1".to_vec(), b"\"x\"".to_vec()]);
    assert_eq!(keys[1].join_keys, vec!["driver_id".to_string()]);
    assert_eq!(keys[1].entity_values, vec![b"2".to_vec()]);
}

#[test]
fn requested_features_select_views() {
    let mut fv1 = FeatureView::new("driver_stats");
    fv1.features.push(Feature::new("conv_rate", ValueType::Double));
    fv1.features.push(Feature::new("acc_rate", ValueType::Double));
    let mut fv2 = FeatureView::new("customer_stats");
    fv2.features.push(Feature::new("spend", ValueType::Double));
    let requested = vec!["driver_stats__acc_rate".to_string(), "conv_rate".to_string(), "unknown".to_string()];
    let selected = match_requested_features(vec![fv1, fv2], &requested);
    assert_eq!(selected.len(), 1);
    assert_eq!(selected[0].feature_view.name, "driver_stats");
    let names: Vec<&str> = selected[0].projection.feature_columns.iter().map(|f| f.name.as_str()).collect();
    assert_eq!(names, vec!["acc_rate", "conv_rate"]);
    assert_eq!(selected[0].projection.view_type, "FeatureView");
}

#[test]
fn answer_rows_per_result_and_name() {
    let response = OnlineReadResponse {
        metadata: OnlineResponseMetadata { feature_names: vec!["fv__a".to_string(), "fv__b".to_string()] },
        results: vec![FeatureVector {
            values: vec![b"1.5".to_vec(), Vec::new()],
            statuses: vec![FieldStatus::Present],
            event_timestamps: vec![None, None],
        }],
    };
    let rows = answer_rows(&response);
    assert_eq!(rows.len(), 2);
    assert_eq!(rows[0].feature_name, "fv__a");
    assert_eq!(rows[0].value, Some(b"1.5".to_vec()));
    assert_eq!(rows[0].status, "Present");
    assert_eq!(rows[1].value, None);
    assert_eq!(rows[1].status, "INVALID");
}

#[test]
fn push_builds_doubled_entity_key() {
    let ek = push_entity_key(&vec!["d1".to_string()]);
    assert_eq!(ek.join_keys, vec!["d1".to_string(), "d1".to_string()]);
    assert_eq!(ek.entity_values, vec![b"d1".to_vec()]);
}

#[test]
fn push_response_counts() {
    let ok = push_response(Ok(()));
    assert_eq!((ok.ingested, ok.failed), (1, 0));
    let failed = push_response(Err("boom".to_string()));
    assert_eq!((failed.ingested, failed.failed), (0, 1));
    assert_eq!(failed.errors, vec!["boom".to_string()]);
}

#[test]
fn request_id_after_first_day_is_long() {
    let id = format_request_id(65536, 0);
    assert_eq!(id, "req-10000-0");
    assert!(id.len() > 10);
}

#[test]
fn answer_rows_give_null_for_values_that_are_not_json() {
    let response = OnlineReadResponse {
        metadata: OnlineResponseMetadata { feature_names: vec!["fv__a".to_string(), "fv__b".to_string(), "fv__c".to_string()] },
        results: vec![FeatureVector {
            values: vec![b"\"text\"".to_vec(), b"not json".to_vec(), b"{\"k\": [1, 2]}".to_vec()],
            statuses: vec![FieldStatus::Present, FieldStatus::Present, FieldStatus::Present],
            event_timestamps: vec![None, None, None],
        }],
    };
    let rows = answer_rows(&response);
    assert_eq!(rows[0].value, Some(b"\"text\"".to_vec()));
    assert_eq!(rows[1].value, None);
    assert_eq!(rows[2].value, Some(b"{\"k\": [1, 2]}".to_vec()));
}
