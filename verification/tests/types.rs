use ofs::time::UtcDateTime;
use ofs::types::{
    DataSource, DataSourceOptions, Entity, Feature, FeatureService, FeatureView, FeatureViewState, Field,
    FileFormat, RepoConfig, SourceType,
};
use ofs::value_type::{FeastType, PrimitiveFeastType, ValueType};

#[test]
fn test_entity_new() {
    let e = Entity::new("driver", vec!["driver_id".to_string()]);
    assert_eq!(e.name, "driver");
    assert_eq!(e.join_keys, vec!["driver_id"]);
    assert_eq!(e.value_type, ValueType::String);
}

#[test]
fn test_feature_new() {
    let f = Feature::new("conv_rate", ValueType::Double);
    assert_eq!(f.name, "conv_rate");
    assert_eq!(f.value_type, ValueType::Double);
}

#[test]
fn test_field_from_feature() {
    let f = Feature::new("age", ValueType::Int64);
    let field: Field = f.into();
    assert_eq!(field.dtype, FeastType::Primitive(PrimitiveFeastType::Int64));
}

#[test]
fn test_feature_view_new() {
    let fv = FeatureView::new("driver_stats");
    assert_eq!(fv.name, "driver_stats");
    assert!(fv.online);
    assert_eq!(fv.version, "latest");
    assert_eq!(fv.state, FeatureViewState::StateUnspecified);
}

#[test]
fn test_feature_view_most_recent_end_time() {
    let mut fv = FeatureView::new("test");
    let t1 = UtcDateTime { secs: 1704067200, nanos: 0 };
    let t2 = UtcDateTime { secs: 1704153600, nanos: 0 };
    let t3 = UtcDateTime { secs: 1704240000, nanos: 0 };
    fv.materialization_intervals.push((t1, t2));
    fv.materialization_intervals.push((t2, t3));
    assert_eq!(fv.most_recent_end_time(), Some(t3));
}

#[test]
fn test_feature_view_most_recent_end_time_empty() {
    let fv = FeatureView::new("test");
    assert_eq!(fv.most_recent_end_time(), None);
}

#[test]
fn test_feature_view_state_transitions() {
    let state = FeatureViewState::StateUnspecified;
    assert!(state.can_transition_to(&FeatureViewState::Created));
    assert!(state.can_transition_to(&FeatureViewState::Materializing));
    assert!(!state.can_transition_to(&FeatureViewState::StateUnspecified));
    assert!(!state.can_transition_to(&FeatureViewState::AvailableOnline));

    let created = FeatureViewState::Created;
    assert!(created.can_transition_to(&FeatureViewState::Generated));
    assert!(created.can_transition_to(&FeatureViewState::Materializing));
}

#[test]
fn test_feature_service_new() {
    let fs = FeatureService::new("model_v1");
    assert_eq!(fs.name, "model_v1");
    assert!(!fs.precompute_online);
}

#[test]
fn test_data_source_new_file() {
    let ds = DataSource::new(
        "features",
        DataSourceOptions::File {
            path: "data/features.parquet".to_string(),
            file_format: FileFormat::Parquet,
            s3_endpoint_override: None,
        },
    );
    assert_eq!(ds.name, "features");
    assert_eq!(ds.source_type, SourceType::BatchFile);
}

#[test]
fn test_source_type_from_i32() {
    assert_eq!(SourceType::from_i32(0), Some(SourceType::Invalid));
    assert_eq!(SourceType::from_i32(1), Some(SourceType::BatchFile));
    assert_eq!(SourceType::from_i32(9), Some(SourceType::PushSource));
    assert_eq!(SourceType::from_i32(99), None);
}

#[test]
fn test_repo_config_default() {
    let cfg = RepoConfig::default();
    assert_eq!(cfg.project, "default");
    assert_eq!(cfg.entity_key_serialization_version, 3);
    assert_eq!(cfg.provider, "local");
}

#[test]
fn most_recent_end_time_takes_latest_not_last() {
    let mut fv = FeatureView::new("test");
    let a = UtcDateTime { secs: 10, nanos: 0 };
    let b = UtcDateTime { secs: 30, nanos: 0 };
    let c = UtcDateTime { secs: 20, nanos: 5 };
    fv.materialization_intervals.push((a, b));
    fv.materialization_intervals.push((a, c));
    assert_eq!(fv.most_recent_end_time(), Some(b));
}

#[test]
fn state_code_roundtrip() {
    for code in 0..8 {
        if let Some(s) = FeatureViewState::from_i32(code) {
            assert_eq!(s.to_i32(), code);
        }
    }
    assert_eq!(FeatureViewState::from_i32(100), None);
}
