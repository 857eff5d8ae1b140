use ofs::offline::{DuckDbOfflineStore, EntityDataFrame};
use ofs::time::UtcDateTime;
use ofs::types::{
    DataSource, DataSourceOptions, Feature, FeatureView, FeatureViewProjection, FeatureViewWithProjection, FileFormat,
};
use ofs::value_type::ValueType;
use std::collections::HashMap;

fn make_fvp(name: &str, features: Vec<&str>, source_path: Option<&str>) -> FeatureViewWithProjection {
    let fv_features: Vec<Feature> = features.iter().map(|f| Feature::new(f, ValueType::Double)).collect();
    let mut fv = FeatureView::new(name);
    fv.features = fv_features.clone();
    if let Some(path) = source_path {
        fv.batch_source = Some(DataSource::new(
            "source",
            DataSourceOptions::File {
                path: path.to_string(),
                file_format: FileFormat::Parquet,
                s3_endpoint_override: None,
            },
        ));
    }
    FeatureViewWithProjection {
        feature_view: fv,
        projection: FeatureViewProjection {
            feature_view_name: name.to_string(),
            feature_view_name_alias: None,
            feature_columns: fv_features,
            join_key_map: HashMap::new(),
            timestamp_field: None,
            date_partition_column: None,
            created_timestamp_column: None,
            batch_source: None,
            stream_source: None,
            view_type: "FeatureView".to_string(),
        },
    }
}

#[test]
fn test_build_asof_query_single_key_single_fv() {
    let fvp = make_fvp("driver_stats", vec!["conv_rate"], Some("data/driver_stats.parquet"));
    let query = DuckDbOfflineStore::build_asof_query(
        "entity_df",
        "event_timestamp",
        &vec!["driver_id".to_string()],
        &vec![fvp],
    );
    assert!(query.contains("ASOF LEFT JOIN"));
    assert!(query.contains("driver_stats__conv_rate"));
    assert!(query.contains("event_timestamp"));
    assert!(query.contains("read_parquet"));
}

#[test]
fn test_build_asof_query_multi_key() {
    let fvp = make_fvp("customer_stats", vec!["total_spend"], Some("data/cust.parquet"));
    let query = DuckDbOfflineStore::build_asof_query(
        "entity_df",
        "event_timestamp",
        &vec!["customer_id".to_string(), "region".to_string()],
        &vec![fvp],
    );
    assert!(query.contains("ASOF LEFT JOIN"));
    assert!(query.contains("AND"));
    assert!(query.contains("customer_id"));
    assert!(query.contains("region"));
}

#[test]
fn test_build_asof_query_multiple_fvs() {
    let fv1 = make_fvp("driver_stats", vec!["conv_rate"], Some("data/drivers.parquet"));
    let fv2 = make_fvp("customer_stats", vec!["total_spend"], Some("data/cust.parquet"));
    let query = DuckDbOfflineStore::build_asof_query(
        "entity_df",
        "event_timestamp",
        &vec!["driver_id".to_string()],
        &vec![fv1, fv2],
    );
    assert_eq!(query.matches("ASOF LEFT JOIN").count(), 2);
    assert!(query.contains("driver_stats__conv_rate"));
    assert!(query.contains("customer_stats__total_spend"));
}

#[test]
fn test_build_asof_query_no_batch_source() {
    let fvp = make_fvp("driver_stats", vec!["conv_rate"], None);
    let query = DuckDbOfflineStore::build_asof_query(
        "entity_df",
        "event_timestamp",
        &vec!["driver_id".to_string()],
        &vec![fvp],
    );
    assert!(query.contains("ASOF LEFT JOIN"));
    assert!(query.contains("VALUES(NULL::VARCHAR)"));
}

#[test]
fn test_full_query() {
    let entity_df = EntityDataFrame {
        columns: vec!["driver_id".to_string(), "event_timestamp".to_string()],
        arrow_data: Vec::new(),
        num_rows: 0,
        timestamp_column: "event_timestamp".to_string(),
        entity_key_columns: vec!["driver_id".to_string()],
    };
    let fvp = make_fvp("driver_stats", vec!["conv_rate"], Some("data/drivers.parquet"));
    let job = DuckDbOfflineStore.get_historical_features(entity_df, vec![fvp]).unwrap();
    assert!(job.query.contains("entity_df"));
    assert!(job.query.contains("driver_stats__conv_rate"));
    assert_eq!(job.schema_fields.len(), 3);
    assert!(job.schema_fields.contains(&"driver_stats__conv_rate".to_string()));
}

#[test]
fn test_pull_features() {
    let mut fv = FeatureView::new("driver_stats");
    fv.features.push(Feature::new("conv_rate", ValueType::Double));
    fv.batch_source = Some(DataSource::new(
        "source",
        DataSourceOptions::File {
            path: "data/drivers.parquet".to_string(),
            file_format: FileFormat::Parquet,
            s3_endpoint_override: None,
        },
    ));
    let start = UtcDateTime { secs: 1704067200, nanos: 0 };
    let end = UtcDateTime { secs: 1704153600, nanos: 0 };
    let job = DuckDbOfflineStore.pull_features(&fv, start, end).unwrap();
    assert!(job.query.contains("read_parquet"));
    assert!(job.query.contains("2024-01-01"));
    assert!(job.query.contains("2024-01-02"));
    assert_eq!(job.schema_fields, vec!["event_timestamp", "conv_rate"]);
}

#[test]
fn asof_query_of_csv_source_reads_csv() {
    let fvp = make_fvp("s", vec!["f"], Some("data/x.csv"));
    let query =
        DuckDbOfflineStore::build_asof_query("entity_df", "ts", &vec!["k".to_string()], &vec![fvp]);
    assert!(query.contains("read_csv_auto('data/x.csv')"));
}

#[test]
fn asof_query_doubles_quotes_in_path() {
    let fvp = make_fvp("s", vec!["f"], Some("data/o'brien.parquet"));
    let query =
        DuckDbOfflineStore::build_asof_query("entity_df", "ts", &vec!["k".to_string()], &vec![fvp]);
    assert!(query.contains("read_parquet('data/o''brien.parquet')"));
}

#[test]
fn asof_join_conditions_name_each_feature_table() {
    let fv1 = make_fvp("driver_stats", vec!["conv_rate"], Some("data/drivers.parquet"));
    let fv2 = make_fvp("customer_stats", vec!["total_spend"], Some("data/cust.parquet"));
    let query = DuckDbOfflineStore::build_asof_query(
        "entity_df",
        "event_timestamp",
        &vec!["driver_id".to_string(), "region".to_string()],
        &vec![fv1, fv2],
    );
    let expected = "SELECT \"entity_df\".*,\n\"fv_0\".\"conv_rate\" AS \"driver_stats__conv_rate\",\n\"fv_1\".\"total_spend\" AS \"customer_stats__total_spend\" FROM \"entity_df\" ASOF LEFT JOIN read_parquet('data/drivers.parquet') AS \"fv_0\"\n                 ON \"entity_df\".\"driver_id\" = \"fv_0\".\"driver_id\" AND \"entity_df\".\"region\" = \"fv_0\".\"region\"\n                 AND \"entity_df\".\"event_timestamp\" >= \"fv_0\".\"event_timestamp\"\nASOF LEFT JOIN read_parquet('data/cust.parquet') AS \"fv_1\"\n                 ON \"entity_df\".\"driver_id\" = \"fv_1\".\"driver_id\" AND \"entity_df\".\"region\" = \"fv_1\".\"region\"\n                 AND \"entity_df\".\"event_timestamp\" >= \"fv_1\".\"event_timestamp\"";
    assert_eq!(query, expected);
    assert!(!query.contains("\"fv0\""));
}
