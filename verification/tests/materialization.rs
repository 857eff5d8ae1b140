use ofs::materialization::{incremental_start, incremental_window, rows_to_records, select_target_views, write_batches};
use ofs::time::{Duration, UtcDateTime};
use ofs::types::{EntityKey, Feature, FeatureView, OnlineWriteRecord};
use ofs::value_type::ValueType;

fn view() -> FeatureView {
    let mut fv = FeatureView::new("driver_stats");
    fv.features.push(Feature::new("conv_rate", ValueType::Double));
    fv.entities.push("driver_id".to_string());
    fv
}

fn day(d: i64) -> UtcDateTime {
    UtcDateTime { secs: 1704067200 + d * 86400, nanos: 0 }
}

#[test]
fn test_materialize_no_feature_views() {
    let result = select_target_views(Vec::new(), &None);
    let err = result.unwrap_err();
    assert!(err.to_string().contains("No feature views found"));
}

#[test]
fn test_materialize_with_feature_views() {
    let selected = select_target_views(vec![view(), FeatureView::new("other")], &Some(vec!["driver_stats".to_string()])).unwrap();
    assert_eq!(selected.len(), 1);
    assert_eq!(selected[0].name, "driver_stats");
}

#[test]
fn test_materialize_incremental_no_prior() {
    let end = day(1);
    let window = incremental_window(&Vec::new(), None, end).unwrap();
    assert_eq!(window, (day(0), end));
}

#[test]
fn test_materialize_incremental_with_prior() {
    let prior_start = day(0);
    let prior_end = UtcDateTime { secs: 1704067200 + 12 * 3600, nanos: 0 };
    let end = day(1);
    let window = incremental_window(&vec![(prior_start, prior_end)], None, end).unwrap();
    assert_eq!(window, (prior_end, end));
}

#[test]
fn incremental_up_to_date_is_skipped() {
    let end = day(1);
    assert!(incremental_window(&vec![(day(0), day(2))], None, end).is_none());
}

#[test]
fn incremental_start_uses_ttl() {
    let end = UtcDateTime { secs: 1000, nanos: 100 };
    let start = incremental_start(&Vec::new(), Some(Duration { secs: 10, nanos: 200 }), end);
    assert_eq!(start, UtcDateTime { secs: 989, nanos: 999_999_900 });
}

#[test]
fn rows_become_records() {
    let fv = view();
    let rows = vec![vec![
        ("driver_id".to_string(), "1001".to_string()),
        ("driver_stats__conv_rate".to_string(), "0.5".to_string()),
        ("event_timestamp".to_string(), "2024-01-01T00:00:00Z".to_string()),
    ]];
    let end = day(5);
    let records = rows_to_records(&fv, &rows, end, false);
    assert_eq!(records.len(), 1);
    let r = &records[0];
    assert_eq!(r.entity_key.join_keys, vec!["driver_id".to_string()]);
    assert_eq!(r.entity_key.entity_values, vec![b"1001".to_vec()]);
    assert_eq!(r.entity_key.value_types, vec![ValueType::String]);
    assert_eq!(r.values, vec![("conv_rate".to_string(), b"0.5".to_vec())]);
    assert_eq!(r.timestamp, day(0));
    assert_eq!(r.feature_view_name, "driver_stats");

    let full = rows_to_records(&fv, &rows, end, true);
    assert_eq!(full[0].values, vec![("driver_stats__conv_rate".to_string(), b"0.5".to_vec())]);
}

#[test]
fn row_without_time_uses_end() {
    let fv = view();
    let rows = vec![vec![("conv_rate".to_string(), "0.1".to_string()), ("event_ts".to_string(), "garbage".to_string())]];
    let records = rows_to_records(&fv, &rows, day(3), false);
    assert_eq!(records[0].timestamp, day(3));
    assert!(records[0].entity_key.entity_values.is_empty());
}

#[test]
fn batches_of_one_hundred() {
    let rec = OnlineWriteRecord {
        entity_key: EntityKey::new(Vec::new()),
        values: Vec::new(),
        timestamp: day(0),
        feature_view_name: "fv".to_string(),
    };
    let records: Vec<OnlineWriteRecord> = (0..250).map(|_| rec.clone()).collect();
    let batches = write_batches(records);
    let sizes: Vec<usize> = batches.iter().map(|b| b.len()).collect();
    assert_eq!(sizes, vec![100, 100, 50]);
    assert!(write_batches(Vec::new()).is_empty());
}

#[test]
fn incremental_start_within_a_leap_second_matches_chrono() {
    for (secs, nanos) in [(10u64, 0u32), (10, 700_000_000), (0, 200), (86400, 0)] {
        let end = UtcDateTime { secs: 59, nanos: 1_500_000_000 };
        let start = incremental_start(&Vec::new(), Some(Duration { secs, nanos }), end);
        let chrono_end = chrono::DateTime::from_timestamp(59, 1_500_000_000).unwrap();
        let span = chrono::Duration::from_std(std::time::Duration::new(secs, nanos)).unwrap();
        let expected = chrono_end - span;
        assert_eq!((start.secs, start.nanos), (expected.timestamp(), expected.timestamp_subsec_nanos()));
    }
}
