use std::collections::HashMap;

use ofs::errors::OfsError;
use ofs::grpc::{
    grpc_feature_service, grpc_feature_views, grpc_read_plan, grpc_read_result, grpc_response, grpc_service_views,
    grpc_serving_version, GrpcCode, GrpcKind,
};
use ofs::online::{FeatureVector, FieldStatus, OnlineReadResponse, OnlineResponseMetadata};
use ofs::proto::Timestamp;
use ofs::time::UtcDateTime;
use ofs::types::{Feature, FeatureService, FeatureView, FeatureViewProjection};
use ofs::value_type::ValueType;

fn projection(view: &str) -> FeatureViewProjection {
    FeatureViewProjection {
        feature_view_name: view.to_string(),
        feature_view_name_alias: None,
        feature_columns: vec![Feature::new("conv_rate", ValueType::Double)],
        join_key_map: HashMap::new(),
        timestamp_field: None,
        date_partition_column: None,
        created_timestamp_column: None,
        batch_source: None,
        stream_source: None,
        view_type: "FeatureView".to_string(),
    }
}

fn service(views: &[&str]) -> FeatureService {
    let mut fs = FeatureService::new("driver_activity");
    for v in views {
        fs.features.push(projection(v));
    }
    fs
}

#[test]
fn read_plan_needs_a_kind() {
    let entities = vec![("driver_id".to_string(), vec![b"1".to_vec()])];
    let err = grpc_read_plan(None, None, &entities).unwrap_err();
    assert_eq!(err.code, GrpcCode::InvalidArgument);
    assert_eq!(err.message, "must specify feature_service or features");
}

#[test]
fn read_plan_needs_entity_rows() {
    let kind = Some(GrpcKind::Features(vec!["conv_rate".to_string()]));
    let err = grpc_read_plan(None, kind.clone(), &Vec::new()).unwrap_err();
    assert_eq!(err.code, GrpcCode::InvalidArgument);
    assert_eq!(err.message, "no entity keys provided");
    let empty_column = vec![("driver_id".to_string(), Vec::new())];
    let err = grpc_read_plan(None, kind, &empty_column).unwrap_err();
    assert_eq!(err.message, "no entity keys provided");
}

#[test]
fn read_plan_takes_project_and_rows() {
    let entities = vec![
        ("driver_id".to_string(), vec![b"1".to_vec(), b"2".to_vec()]),
        ("city".to_string(), vec![b"x".to_vec()]),
    ];
    let plan = grpc_read_plan(None, Some(GrpcKind::FeatureService("svc".to_string())), &entities).unwrap();
    assert_eq!(plan.project, "default");
    assert_eq!(plan.feature_service, Some("svc".to_string()));
    assert!(plan.feature_names.is_empty());
    assert_eq!(plan.entity_keys.len(), 2);
    assert_eq!(plan.entity_keys[0].join_keys, vec!["driver_id".to_string(), "city".to_string()]);
    assert_eq!(plan.entity_keys[0].entity_values, vec![b"1".to_vec(), b"x".to_vec()]);
    assert_eq!(plan.entity_keys[1].join_keys, vec!["driver_id".to_string(), "city".to_string()]);
    assert_eq!(plan.entity_keys[1].entity_values, vec![b"2".to_vec()]);
    assert!(plan.entity_keys[1].value_types.is_empty());

    let names = vec!["driver_stats__conv_rate".to_string()];
    let plan = grpc_read_plan(Some("prod".to_string()), Some(GrpcKind::Features(names.clone())), &entities).unwrap();
    assert_eq!(plan.project, "prod");
    assert_eq!(plan.feature_service, None);
    assert_eq!(plan.feature_names, names);
}

#[test]
fn feature_service_lookup_outcomes() {
    let name = "driver_activity".to_string();
    let err = grpc_feature_service(&name, Ok(None)).unwrap_err();
    assert_eq!(err.code, GrpcCode::NotFound);
    assert_eq!(err.message, "feature service 'driver_activity' not found");
    let err = grpc_feature_service(&name, Err(OfsError::Database("down".to_string()))).unwrap_err();
    assert_eq!(err.code, GrpcCode::Internal);
    assert_eq!(err.message, "database error: down");
    let fs = grpc_feature_service(&name, Ok(Some(service(&["driver_stats"])))).unwrap();
    assert_eq!(fs.name, "driver_activity");
    assert_eq!(fs.features.len(), 1);
}

#[test]
fn service_views_pair_views_with_projections() {
    let views = grpc_service_views(
        service(&["driver_stats", "customer_stats"]),
        vec![Ok(Some(FeatureView::new("driver_stats"))), Ok(Some(FeatureView::new("customer_stats")))],
    )
    .unwrap();
    assert_eq!(views.len(), 2);
    assert_eq!(views[0].feature_view.name, "driver_stats");
    assert_eq!(views[0].projection.feature_view_name, "driver_stats");
    assert_eq!(views[1].feature_view.name, "customer_stats");
    assert_eq!(views[1].projection.feature_columns[0].name, "conv_rate");
}

#[test]
fn service_views_stop_at_first_failed_lookup() {
    let err = grpc_service_views(
        service(&["driver_stats", "customer_stats", "other"]),
        vec![Ok(Some(FeatureView::new("driver_stats"))), Ok(None), Err(OfsError::Other("late".to_string()))],
    )
    .unwrap_err();
    assert_eq!(err.code, GrpcCode::NotFound);
    assert_eq!(err.message, "feature view 'customer_stats' not found");
    let err = grpc_service_views(
        service(&["driver_stats", "customer_stats"]),
        vec![Err(OfsError::Redis("gone".to_string())), Ok(None)],
    )
    .unwrap_err();
    assert_eq!(err.code, GrpcCode::Internal);
    assert_eq!(err.message, "Redis error: gone");
    let err = grpc_service_views(service(&[]), Vec::new()).unwrap_err();
    assert_eq!(err.code, GrpcCode::NotFound);
    assert_eq!(err.message, "no matching feature views found");
}

#[test]
fn feature_views_match_requested_names() {
    let mut fv1 = FeatureView::new("driver_stats");
    fv1.features.push(Feature::new("conv_rate", ValueType::Double));
    let mut fv2 = FeatureView::new("customer_stats");
    fv2.features.push(Feature::new("spend", ValueType::Double));
    let names = vec!["driver_stats__conv_rate".to_string()];
    let views = grpc_feature_views(Ok(vec![fv1, fv2]), &names).unwrap();
    assert_eq!(views.len(), 1);
    assert_eq!(views[0].feature_view.name, "driver_stats");
    assert_eq!(views[0].projection.feature_columns[0].name, "conv_rate");

    let err = grpc_feature_views(Ok(vec![FeatureView::new("empty")]), &names).unwrap_err();
    assert_eq!(err.code, GrpcCode::NotFound);
    assert_eq!(err.message, "no matching feature views found");
    let err = grpc_feature_views(Err(OfsError::Other("boom".to_string())), &names).unwrap_err();
    assert_eq!(err.code, GrpcCode::Internal);
    assert_eq!(err.message, "boom");
}

#[test]
fn response_reads_values_statuses_and_times() {
    let response = OnlineReadResponse {
        metadata: OnlineResponseMetadata { feature_names: vec!["a".to_string(), "b".to_string(), "c".to_string()] },
        results: vec![FeatureVector {
            values: vec![b"1.5".to_vec(), vec![0x66, 0xff, 0x6f], Vec::new()],
            statuses: vec![FieldStatus::Present, FieldStatus::OutsideMaxAge],
            event_timestamps: vec![Some(UtcDateTime { secs: 1_700_000_000, nanos: 250 }), None],
        }],
    };
    let r = grpc_response(&response);
    assert!(r.status);
    assert_eq!(r.feature_names, vec!["a".to_string(), "b".to_string(), "c".to_string()]);
    assert_eq!(r.results.len(), 1);
    let v = &r.results[0];
    assert_eq!(v.values, vec!["1.5".to_string(), "f\u{fffd}o".to_string(), String::new()]);
    assert_eq!(v.statuses, vec![1, 4, 0]);
    assert_eq!(
        v.event_timestamps,
        vec![
            Timestamp { seconds: 1_700_000_000, nanos: 250 },
            Timestamp { seconds: 0, nanos: 0 },
            Timestamp { seconds: 0, nanos: 0 },
        ]
    );
}

#[test]
fn response_status_codes_follow_the_statuses() {
    let statuses = vec![
        FieldStatus::Invalid,
        FieldStatus::Present,
        FieldStatus::NullValue,
        FieldStatus::NotFound,
        FieldStatus::OutsideMaxAge,
    ];
    let response = OnlineReadResponse {
        metadata: OnlineResponseMetadata { feature_names: Vec::new() },
        results: vec![FeatureVector {
            values: vec![Vec::new(); 5],
            statuses,
            event_timestamps: vec![None; 5],
        }],
    };
    assert_eq!(grpc_response(&response).results[0].statuses, vec![0, 1, 2, 3, 4]);
}

#[test]
fn read_result_maps_store_errors() {
    let err = grpc_read_result(Err(OfsError::Redis("timeout".to_string()))).unwrap_err();
    assert_eq!(err.code, GrpcCode::Internal);
    assert_eq!(err.message, "Redis error: timeout");
    let ok = grpc_read_result(Ok(OnlineReadResponse {
        metadata: OnlineResponseMetadata { feature_names: vec!["x".to_string()] },
        results: Vec::new(),
    }))
    .unwrap();
    assert_eq!(ok.feature_names, vec!["x".to_string()]);
    assert!(ok.results.is_empty());
}

#[test]
fn serving_info_gives_the_version() {
    assert_eq!(grpc_serving_version(), "0.1.0");
}
