use ofs::backfill::BackfillStatus;
use ofs::registry::{
    apply_data_source, apply_entity, apply_feature_service, apply_feature_view, apply_materialization,
    apply_on_demand_feature_view, delete_entity, delete_feature_view, get_data_source, get_entity,
    get_feature_service, get_feature_view, get_materialization_intervals, list_entities, list_feature_views,
    list_on_demand_feature_views, remove_materialization_intervals, RegistryMessage,
};
use ofs::time::UtcDateTime;
use ofs::types::{
    DataSource, DataSourceOptions, Entity, Feature, FeatureService, FeatureView, FileFormat, OnDemandFeatureView,
};
use ofs::value_type::ValueType;

fn at(secs: i64) -> UtcDateTime {
    UtcDateTime { secs, nanos: 0 }
}

#[test]
fn entity_apply_then_get() {
    let mut reg = RegistryMessage::empty();
    let e = Entity::new("driver", vec!["driver_id".to_string()]);
    apply_entity(&mut reg, &e, "proj");
    let got = get_entity(&reg, "driver", "proj").unwrap();
    assert_eq!(got.name, "driver");
    assert_eq!(got.project, "proj");
    assert_eq!(got.join_keys, vec!["driver_id".to_string()]);
    assert!(get_entity(&reg, "driver", "other").is_none());
}

#[test]
fn entity_apply_replaces() {
    let mut reg = RegistryMessage::empty();
    let mut e = Entity::new("driver", vec!["driver_id".to_string()]);
    apply_entity(&mut reg, &e, "proj");
    e.description = "updated".to_string();
    apply_entity(&mut reg, &e, "proj");
    assert_eq!(reg.entities.len(), 1);
    assert_eq!(get_entity(&reg, "driver", "proj").unwrap().description, "updated");
    apply_entity(&mut reg, &Entity::new("customer", vec![]), "proj");
    apply_entity(&mut reg, &Entity::new("driver", vec![]), "elsewhere");
    let names: Vec<String> = list_entities(&reg, "proj").into_iter().map(|e| e.name).collect();
    assert_eq!(names, vec!["driver".to_string(), "customer".to_string()]);
}

#[test]
fn entity_delete() {
    let mut reg = RegistryMessage::empty();
    apply_entity(&mut reg, &Entity::new("driver", vec![]), "proj");
    delete_entity(&mut reg, "driver", "proj");
    assert!(get_entity(&reg, "driver", "proj").is_none());
}

#[test]
fn feature_view_apply_get_list_delete() {
    let mut reg = RegistryMessage::empty();
    let mut fv = FeatureView::new("driver_stats");
    fv.features.push(Feature::new("conv_rate", ValueType::Double));
    fv.entities.push("driver".to_string());
    apply_feature_view(&mut reg, &fv, "proj");
    let got = get_feature_view(&reg, "driver_stats", "proj").unwrap();
    assert_eq!(got.project, "proj");
    assert_eq!(got.features.len(), 1);
    assert_eq!(got.features[0].name, "conv_rate");
    assert_eq!(got.entities, vec!["driver".to_string()]);
    assert_eq!(list_feature_views(&reg, "proj").len(), 1);
    delete_feature_view(&mut reg, "driver_stats", "proj");
    assert!(get_feature_view(&reg, "driver_stats", "proj").is_none());
}

#[test]
fn materialization_intervals_recorded_once() {
    let mut reg = RegistryMessage::empty();
    apply_feature_view(&mut reg, &FeatureView::new("fv"), "proj");
    apply_materialization(&mut reg, "fv", "proj", at(0), at(100));
    apply_materialization(&mut reg, "fv", "proj", at(0), at(100));
    apply_materialization(&mut reg, "fv", "proj", at(100), at(200));
    assert_eq!(get_materialization_intervals(&reg, "fv", "proj"), vec![(at(0), at(100)), (at(100), at(200))]);
    remove_materialization_intervals(&mut reg, "fv", "proj", &vec![(at(0), at(999))]);
    assert_eq!(get_materialization_intervals(&reg, "fv", "proj"), vec![(at(100), at(200))]);
    apply_materialization(&mut reg, "missing", "proj", at(0), at(1));
    assert!(get_materialization_intervals(&reg, "missing", "proj").is_empty());
}

#[test]
fn services_sources_and_odfvs() {
    let mut reg = RegistryMessage::empty();
    apply_feature_service(&mut reg, &FeatureService::new("model_v1"), "proj");
    assert_eq!(get_feature_service(&reg, "model_v1", "proj").unwrap().project, "proj");
    let ds = DataSource::new(
        "src",
        DataSourceOptions::File { path: "data/x.parquet".to_string(), file_format: FileFormat::Parquet, s3_endpoint_override: None },
    );
    apply_data_source(&mut reg, &ds, "proj");
    assert_eq!(get_data_source(&reg, "src", "proj").unwrap().name, "src");
    let mut odfv = OnDemandFeatureView::default();
    odfv.name = "odfv".to_string();
    apply_on_demand_feature_view(&mut reg, &odfv, "proj");
    let listed = list_on_demand_feature_views(&reg, "proj");
    assert_eq!(listed.len(), 1);
    assert_eq!(listed[0].name, "odfv");
}

#[test]
fn backfill_status_names_roundtrip() {
    for st in [
        BackfillStatus::Pending,
        BackfillStatus::Running,
        BackfillStatus::Completed,
        BackfillStatus::Failed,
        BackfillStatus::Cancelled,
    ] {
        assert_eq!(BackfillStatus::from_name(st.name()), st);
    }
    assert_eq!(BackfillStatus::from_name("weird"), BackfillStatus::Pending);
}
