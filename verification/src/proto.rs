//! The registry's protocol messages (Feast's `core` messages), with the
//! fields this library reads and writes. Unset strings are empty, unset
//! messages are `None`, and enumerations are carried by their codes.
use std::collections::HashMap;
use vstd::prelude::*;

verus! {

/// An instant: seconds since the Unix epoch and nanoseconds within the second.
#[derive(Debug, Clone, Copy, PartialEq, Eq, Structural)]
pub struct Timestamp {
    pub seconds: i64,
    pub nanos: i32,
}

/// A signed span of time: seconds and nanoseconds.
#[derive(Debug, Clone, Copy, PartialEq, Eq, Structural)]
pub struct Duration {
    pub seconds: i64,
    pub nanos: i32,
}

/// The specification of a feature.
#[derive(Debug, Clone)]
pub struct FeatureSpecV2 {
    pub name: String,
    pub value_type: i32,
    pub tags: HashMap<String, String>,
    pub description: String,
    pub vector_index: bool,
    pub vector_search_metric: String,
    pub vector_length: i32,
}

/// The formats a file format message can name.
#[derive(Debug, Clone, Copy, PartialEq, Eq, Structural)]
pub enum FileFormatKind {
    ParquetFormat,
}

/// The format of a file source.
#[derive(Debug, Clone, Copy, PartialEq, Eq, Structural)]
pub struct FileFormat {
    pub format: Option<FileFormatKind>,
}

/// The options of a data source, one per kind of source.
#[derive(Debug, Clone)]
pub enum DataSourceOptions {
    FileOptions { file_format: Option<FileFormat>, uri: String, s3_endpoint_override: String },
    BigqueryOptions { table: String, query: String },
    RedshiftOptions { table: String, query: String, schema: String, database: String },
    SnowflakeOptions { table: String, query: String, schema: String, database: String },
    KafkaOptions { kafka_bootstrap_servers: String, topic: String },
    KinesisOptions { region: String, stream_name: String },
    RequestDataOptions { schema: Vec<FeatureSpecV2> },
    CustomOptions { configuration: Vec<u8> },
    PushOptions,
    SparkOptions {
        table: String,
        query: String,
        path: String,
        file_format: String,
        date_partition_column_format: String,
    },
    TrinoOptions { table: String, query: String },
    AthenaOptions { table: String, query: String, database: String, data_source: String },
}

/// A data source.
#[derive(Debug, Clone)]
pub struct DataSource {
    pub name: String,
    pub project: String,
    pub description: String,
    pub tags: HashMap<String, String>,
    pub owner: String,
    pub source_type: i32,
    pub field_mapping: HashMap<String, String>,
    pub timestamp_field: String,
    pub date_partition_column: String,
    pub created_timestamp_column: String,
    pub timestamp_field_type: String,
    pub data_source_class_type: String,
    pub options: Option<DataSourceOptions>,
}

/// The specification of an entity.
#[derive(Debug, Clone)]
pub struct EntitySpecV2 {
    pub name: String,
    pub project: String,
    pub value_type: i32,
    pub description: String,
    pub join_key: String,
    pub tags: HashMap<String, String>,
    pub owner: String,
}

/// When an entity was created and last updated.
#[derive(Debug, Clone, Copy)]
pub struct EntityMeta {
    pub created_timestamp: Option<Timestamp>,
    pub last_updated_timestamp: Option<Timestamp>,
}

/// An entity.
#[derive(Debug, Clone)]
pub struct Entity {
    pub spec: Option<EntitySpecV2>,
    pub meta: Option<EntityMeta>,
}

/// A span of time whose features were materialized.
#[derive(Debug, Clone, Copy)]
pub struct MaterializationInterval {
    pub start_time: Option<Timestamp>,
    pub end_time: Option<Timestamp>,
}

/// The specification of a feature view.
#[derive(Debug, Clone)]
pub struct FeatureViewSpec {
    pub name: String,
    pub project: String,
    pub entities: Vec<String>,
    pub features: Vec<FeatureSpecV2>,
    pub tags: HashMap<String, String>,
    pub ttl: Option<Duration>,
    pub batch_source: Option<DataSource>,
    pub online: bool,
    pub stream_source: Option<DataSource>,
    pub description: String,
    pub owner: String,
    pub entity_columns: Vec<FeatureSpecV2>,
    pub offline: bool,
    pub mode: String,
    pub enable_validation: bool,
    pub version: String,
    pub org: String,
    pub disabled: bool,
}

/// The metadata of a feature view.
#[derive(Debug, Clone)]
pub struct FeatureViewMeta {
    pub created_timestamp: Option<Timestamp>,
    pub last_updated_timestamp: Option<Timestamp>,
    pub materialization_intervals: Vec<MaterializationInterval>,
    pub current_version_number: i32,
    pub version_id: String,
    pub state: i32,
}

/// A feature view.
#[derive(Debug, Clone)]
pub struct FeatureView {
    pub spec: Option<FeatureViewSpec>,
    pub meta: Option<FeatureViewMeta>,
}

/// A selection of a feature view's features.
#[derive(Debug, Clone)]
pub struct FeatureViewProjection {
    pub feature_view_name: String,
    pub feature_view_name_alias: String,
    pub feature_columns: Vec<FeatureSpecV2>,
    pub join_key_map: HashMap<String, String>,
    pub timestamp_field: String,
    pub date_partition_column: String,
    pub created_timestamp_column: String,
    pub batch_source: Option<DataSource>,
    pub stream_source: Option<DataSource>,
    pub view_type: String,
}

/// The kinds of input of an on-demand feature view.
#[derive(Debug, Clone)]
pub enum OnDemandSourceKind {
    FeatureView(FeatureView),
    FeatureViewProjection(FeatureViewProjection),
    RequestDataSource(DataSource),
}

/// An input of an on-demand feature view.
#[derive(Debug, Clone)]
pub struct OnDemandSource {
    pub source: Option<OnDemandSourceKind>,
}

/// A serialized user-defined function.
#[derive(Debug, Clone)]
pub struct UserDefinedFunctionV2 {
    pub name: String,
    pub body: Vec<u8>,
    pub body_text: String,
    pub mode: String,
}

/// The kinds of transformation of an on-demand feature view.
#[derive(Debug, Clone)]
pub enum Transformation {
    UserDefinedFunction(UserDefinedFunctionV2),
    SubstraitTransformation { substrait_plan: Vec<u8>, ibis_function: Vec<u8> },
}

/// The transformation of an on-demand feature view.
#[derive(Debug, Clone)]
pub struct FeatureTransformationV2 {
    pub transformation: Option<Transformation>,
}

/// The specification of an on-demand feature view; its inputs are keyed by
/// name.
#[derive(Debug, Clone)]
pub struct OnDemandFeatureViewSpec {
    pub name: String,
    pub project: String,
    pub features: Vec<FeatureSpecV2>,
    pub sources: Vec<(String, OnDemandSource)>,
    pub feature_transformation: Option<FeatureTransformationV2>,
    pub description: String,
    pub tags: HashMap<String, String>,
    pub owner: String,
    pub mode: String,
    pub write_to_online_store: bool,
    pub entities: Vec<String>,
    pub entity_columns: Vec<FeatureSpecV2>,
    pub singleton: bool,
    pub version: String,
    pub org: String,
    pub disabled: bool,
}

/// The metadata of an on-demand feature view.
#[derive(Debug, Clone)]
pub struct OnDemandFeatureViewMeta {
    pub created_timestamp: Option<Timestamp>,
    pub last_updated_timestamp: Option<Timestamp>,
    pub current_version_number: i32,
    pub version_id: String,
    pub state: i32,
}

/// An on-demand feature view.
#[derive(Debug, Clone)]
pub struct OnDemandFeatureView {
    pub spec: Option<OnDemandFeatureViewSpec>,
    pub meta: Option<OnDemandFeatureViewMeta>,
}

/// Where a feature service's requests are logged.
#[derive(Debug, Clone)]
pub enum Destination {
    FileDestination { path: String, s3_endpoint_override: String, partition_by: Vec<String> },
    BigqueryDestination { table_ref: String },
    RedshiftDestination { table_name: String },
    SnowflakeDestination { table_name: String },
    AthenaDestination { table_name: String },
    CustomDestination { kind: String, config: Vec<(String, String)> },
}

/// The logging of a feature service; the sample rate is a `float`, carried
/// by its bit pattern.
#[derive(Debug, Clone)]
pub struct LoggingConfig {
    pub sample_rate_bits: u32,
    pub destination: Option<Destination>,
}

/// The specification of a feature service.
#[derive(Debug, Clone)]
pub struct FeatureServiceSpec {
    pub name: String,
    pub project: String,
    pub features: Vec<FeatureViewProjection>,
    pub tags: HashMap<String, String>,
    pub description: String,
    pub owner: String,
    pub logging_config: Option<LoggingConfig>,
    pub precompute_online: bool,
}

/// When a feature service was created and last updated.
#[derive(Debug, Clone, Copy)]
pub struct FeatureServiceMeta {
    pub created_timestamp: Option<Timestamp>,
    pub last_updated_timestamp: Option<Timestamp>,
}

/// A feature service.
#[derive(Debug, Clone)]
pub struct FeatureService {
    pub spec: Option<FeatureServiceSpec>,
    pub meta: Option<FeatureServiceMeta>,
}

} // verus!
