use ofs::bindings::{
    online_read_request, online_read_values, PyDataSourceOptions, PyEntity, PyEntityKey, PyFeature,
    PyFeatureService, PyFeatureView, PyRepoConfig, PySourceType, PyValueType,
};
use ofs::online::{FeatureVector, FieldStatus, OnlineReadResponse, OnlineResponseMetadata};
use ofs::types::SourceType;
use ofs::value_type::ValueType;

#[test]
fn py_value_type_maps_both_ways() {
    assert_eq!(PyValueType::from_value_type(&ValueType::Int64), PyValueType::Int64);
    assert_eq!(PyValueType::Int64.to_value_type(), ValueType::Int64);
    assert_eq!(PyValueType::from_value_type(&ValueType::MapValue), PyValueType::MapValue);
    assert_eq!(PyValueType::from_value_type(&ValueType::ZonedTimestamp), PyValueType::Invalid);
    assert_eq!(PyValueType::from_value_type(&ValueType::PdfBytes), PyValueType::Invalid);
    assert_eq!(PyValueType::JsonList.to_value_type(), ValueType::JsonList);
}

#[test]
fn py_value_type_from_code_and_kind() {
    assert_eq!(PyValueType::from_i32(4), Some(PyValueType::Int64));
    assert_eq!(PyValueType::from_i32(999), None);
    assert_eq!(PyValueType::from_i32(48), Some(PyValueType::Invalid));
    assert!(PyValueType::Int64.is_primitive());
    assert!(PyValueType::Int64List.is_list());
    assert!(PyValueType::StringSet.is_set());
    assert!(!PyValueType::StringSet.is_list());
    assert_eq!(PyValueType::Int64.to_string(), "INT64");
}

#[test]
fn py_source_type_maps_both_ways() {
    assert_eq!(PySourceType::from_source_type(&SourceType::BatchAthena), PySourceType::BatchAthena);
    assert_eq!(PySourceType::PushSource.to_source_type(), SourceType::PushSource);
    assert_eq!(PySourceType::from_i32(1), Some(PySourceType::BatchFile));
    assert_eq!(PySourceType::from_i32(99), None);
}

#[test]
fn py_file_options() {
    assert!(PyDataSourceOptions::file("a.csv".to_string(), "csv").is_ok());
    match PyDataSourceOptions::file("x".to_string(), "xlsx") {
        Err(m) => assert_eq!(m, "Unknown file format: xlsx"),
        Ok(_) => panic!("expected an error"),
    }
    assert!(PyDataSourceOptions::file("p".to_string(), "parquet").is_ok());
    assert!(PyDataSourceOptions::file("p".to_string(), "arrow").is_ok());
    assert!(PyDataSourceOptions::file("p".to_string(), "Parquet").is_err());
}

#[test]
fn py_entity_handle() {
    let mut e = PyEntity::new("driver".to_string(), vec!["driver_id".to_string()]);
    assert_eq!(e.name(), "driver");
    assert_eq!(e.join_keys(), vec!["driver_id".to_string()]);
    assert_eq!(e.value_type(), PyValueType::String);
    e.set_value_type(PyValueType::Int64);
    e.set_description("drivers".to_string());
    e.set_owner("ops".to_string());
    assert_eq!(e.value_type(), PyValueType::Int64);
    assert_eq!(e.description(), "drivers");
    assert_eq!(e.repr(), "Entity(name=driver)");
    let inner = e.into_entity();
    assert_eq!(inner.owner, "ops");
    assert_eq!(inner.value_type, ValueType::Int64);
}

#[test]
fn py_feature_view_handle() {
    let mut fv = PyFeatureView::new("stats".to_string());
    fv.add_entity("driver".to_string());
    fv.add_feature(PyFeature::new("trips".to_string(), PyValueType::Int64));
    fv.set_ttl_secs(3600);
    assert_eq!(fv.name(), "stats");
    assert_eq!(fv.entities(), vec!["driver".to_string()]);
    let feats = fv.features();
    assert_eq!(feats.len(), 1);
    assert_eq!(feats[0].name(), "trips");
    assert_eq!(feats[0].value_type(), PyValueType::Int64);
    assert_eq!(feats[0].repr(), "Feature(name=trips)");
    assert_eq!(fv.repr(), "FeatureView(name=stats)");
    let inner = fv.into_feature_view();
    assert_eq!(inner.ttl.unwrap().secs, 3600);
}

#[test]
fn py_entity_key_roundtrip_and_repr() {
    let mut k = PyEntityKey::new(vec![]);
    k.add_value("driver_id".to_string(), vec![1, 2], PyValueType::Int64);
    assert_eq!(k.join_keys(), vec!["driver_id".to_string()]);
    assert_eq!(k.repr(), "EntityKey(join_keys=[\"driver_id\"])");
    let bytes = k.serialize();
    let back = PyEntityKey::deserialize(bytes).unwrap();
    assert_eq!(back.join_keys(), vec!["driver_id".to_string()]);
    assert_eq!(back.inner().entity_values, vec![vec![1u8, 2]]);
    assert!(PyEntityKey::deserialize(vec![1]).is_err());
    let two = PyEntityKey::new(vec!["a".to_string(), "b\"c".to_string()]);
    assert_eq!(two.repr(), "EntityKey(join_keys=[\"a\", \"b\\\"c\"])");
}

#[test]
fn py_config_and_service_handles() {
    let mut c = PyRepoConfig::new();
    assert_eq!(c.project(), "default");
    c.set_project("demo".to_string());
    assert_eq!(c.project(), "demo");
    let s = PyFeatureService::new("svc".to_string());
    assert_eq!(s.name(), "svc");
    assert_eq!(s.repr(), "FeatureService(name=svc)");
}

#[test]
fn python_online_read_request_and_values() {
    let req = online_read_request("stats", &vec!["a".to_string(), "b".to_string()]);
    assert_eq!(req.feature_view.name, "stats");
    assert_eq!(req.projection.feature_columns.len(), 2);
    assert_eq!(req.projection.feature_columns[1].name, "b");
    assert_eq!(req.projection.feature_columns[1].value_type, ValueType::String);
    assert_eq!(req.projection.view_type, "regular");

    let empty = OnlineReadResponse {
        metadata: OnlineResponseMetadata { feature_names: vec![] },
        results: vec![],
    };
    assert_eq!(online_read_values(&empty, 3), vec![None, None, None]);

    let resp = OnlineReadResponse {
        metadata: OnlineResponseMetadata { feature_names: vec![] },
        results: vec![FeatureVector {
            values: vec![vec![7u8], vec![]],
            statuses: vec![FieldStatus::Present, FieldStatus::NullValue],
            event_timestamps: vec![None, None],
        }],
    };
    assert_eq!(online_read_values(&resp, 2), vec![Some(vec![7u8]), None]);
}
