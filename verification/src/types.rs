//! The core registry objects of the feature store: data sources, entities,
//! features, feature views, feature services and entity keys.
use std::collections::HashMap;
use vstd::prelude::*;

use crate::time::{Duration, UtcDateTime, dt_before};
use crate::value_type::{FeastType, ValueType, is_feast_type_of};

verus! {

/// The kind of a data source, with the codes of the Feast protocol.
#[derive(Debug, Clone, Copy, PartialEq, Eq, Structural, Hash)]
pub enum SourceType {
    Invalid,
    BatchFile,
    BatchBigQuery,
    StreamKafka,
    StreamKinesis,
    BatchRedshift,
    CustomSource,
    RequestSource,
    BatchSnowflake,
    PushSource,
    BatchTrino,
    BatchSpark,
    BatchAthena,
}

/// The numeric code of a source type.
pub open spec fn source_type_code(t: SourceType) -> i32 {
    match t {
        SourceType::Invalid => 0,
        SourceType::BatchFile => 1,
        SourceType::BatchBigQuery => 2,
        SourceType::StreamKafka => 3,
        SourceType::StreamKinesis => 4,
        SourceType::BatchRedshift => 5,
        SourceType::CustomSource => 6,
        SourceType::RequestSource => 7,
        SourceType::BatchSnowflake => 8,
        SourceType::PushSource => 9,
        SourceType::BatchTrino => 10,
        SourceType::BatchSpark => 11,
        SourceType::BatchAthena => 12,
    }
}

/// The source type with code `v`, if any.
pub open spec fn source_type_of_code(v: i32) -> Option<SourceType> {
    if v == 0 {
        Some(SourceType::Invalid)
    } else if v == 1 {
        Some(SourceType::BatchFile)
    } else if v == 2 {
        Some(SourceType::BatchBigQuery)
    } else if v == 3 {
        Some(SourceType::StreamKafka)
    } else if v == 4 {
        Some(SourceType::StreamKinesis)
    } else if v == 5 {
        Some(SourceType::BatchRedshift)
    } else if v == 6 {
        Some(SourceType::CustomSource)
    } else if v == 7 {
        Some(SourceType::RequestSource)
    } else if v == 8 {
        Some(SourceType::BatchSnowflake)
    } else if v == 9 {
        Some(SourceType::PushSource)
    } else if v == 10 {
        Some(SourceType::BatchTrino)
    } else if v == 11 {
        Some(SourceType::BatchSpark)
    } else if v == 12 {
        Some(SourceType::BatchAthena)
    } else {
        None
    }
}

impl SourceType {
    /// The source type with code `v`, or `None` for an unknown code.
    pub fn from_i32(v: i32) -> (r: Option<Self>)
        ensures
            r == source_type_of_code(v),
    {
        match v {
            0 => Some(SourceType::Invalid),
            1 => Some(SourceType::BatchFile),
            2 => Some(SourceType::BatchBigQuery),
            3 => Some(SourceType::StreamKafka),
            4 => Some(SourceType::StreamKinesis),
            5 => Some(SourceType::BatchRedshift),
            6 => Some(SourceType::CustomSource),
            7 => Some(SourceType::RequestSource),
            8 => Some(SourceType::BatchSnowflake),
            9 => Some(SourceType::PushSource),
            10 => Some(SourceType::BatchTrino),
            11 => Some(SourceType::BatchSpark),
            12 => Some(SourceType::BatchAthena),
            _ => None,
        }
    }

    /// The numeric code of this source type.
    pub fn to_i32(&self) -> (r: i32)
        ensures
            r == source_type_code(*self),
    {
        match self {
            SourceType::Invalid => 0,
            SourceType::BatchFile => 1,
            SourceType::BatchBigQuery => 2,
            SourceType::StreamKafka => 3,
            SourceType::StreamKinesis => 4,
            SourceType::BatchRedshift => 5,
            SourceType::CustomSource => 6,
            SourceType::RequestSource => 7,
            SourceType::BatchSnowflake => 8,
            SourceType::PushSource => 9,
            SourceType::BatchTrino => 10,
            SourceType::BatchSpark => 11,
            SourceType::BatchAthena => 12,
        }
    }
}

/// Every source type's code maps back to it, and a code that denotes a
/// source type is that source type's code.
pub proof fn lemma_source_type_code_roundtrip(t: SourceType, v: i32)
    ensures
        source_type_of_code(source_type_code(t)) == Some(t),
        source_type_of_code(v) matches Some(u) ==> source_type_code(u) == v,
{
}

/// The format of a file data source.
#[derive(Debug, Clone, Copy, PartialEq, Eq, Structural)]
pub enum FileFormat {
    Parquet,
    Csv,
    Arrow,
}

/// Where and how a data source's rows are read.
#[derive(Debug)]
pub enum DataSourceOptions {
    File { path: String, file_format: FileFormat, s3_endpoint_override: Option<String> },
    BigQuery { table: Option<String>, query: Option<String> },
    Redshift {
        table: Option<String>,
        query: Option<String>,
        schema_name: Option<String>,
        database: Option<String>,
    },
    Snowflake {
        table: Option<String>,
        query: Option<String>,
        schema_name: Option<String>,
        database: Option<String>,
    },
    Kafka { bootstrap_servers: String, topic: String },
    Kinesis { region: String, stream_name: String },
    Push { batch_source: Option<Box<DataSource>> },
    Request { schema: Vec<Feature> },
    Custom { class_type: String, config: Vec<u8> },
    Spark {
        table: Option<String>,
        query: Option<String>,
        path: Option<String>,
        file_format: Option<String>,
    },
    Trino { table: Option<String>, query: Option<String> },
    Athena {
        table: Option<String>,
        query: Option<String>,
        database: Option<String>,
        data_source: Option<String>,
    },
}

/// The source type that a data source with these options has.
pub open spec fn source_type_of_options(o: DataSourceOptions) -> SourceType {
    match o {
        DataSourceOptions::File { .. } => SourceType::BatchFile,
        DataSourceOptions::BigQuery { .. } => SourceType::BatchBigQuery,
        DataSourceOptions::Redshift { .. } => SourceType::BatchRedshift,
        DataSourceOptions::Snowflake { .. } => SourceType::BatchSnowflake,
        DataSourceOptions::Kafka { .. } => SourceType::StreamKafka,
        DataSourceOptions::Kinesis { .. } => SourceType::StreamKinesis,
        DataSourceOptions::Push { .. } => SourceType::PushSource,
        DataSourceOptions::Request { .. } => SourceType::RequestSource,
        DataSourceOptions::Custom { .. } => SourceType::CustomSource,
        DataSourceOptions::Spark { .. } => SourceType::BatchSpark,
        DataSourceOptions::Trino { .. } => SourceType::BatchTrino,
        DataSourceOptions::Athena { .. } => SourceType::BatchAthena,
    }
}

/// A source of feature rows.
#[derive(Debug)]
pub struct DataSource {
    pub name: String,
    pub project: String,
    pub source_type: SourceType,
    pub timestamp_field: Option<String>,
    pub created_timestamp_column: Option<String>,
    pub field_mapping: HashMap<String, String>,
    pub description: String,
    pub tags: HashMap<String, String>,
    pub owner: String,
    pub date_partition_column: Option<String>,
    pub timestamp_field_type: Option<String>,
    pub options: DataSourceOptions,
}

impl Clone for DataSourceOptions {
    fn clone(&self) -> (r: Self)
        decreases self,
    {
        match self {
            DataSourceOptions::File { path, file_format, s3_endpoint_override } => {
                DataSourceOptions::File {
                    path: path.clone(),
                    file_format: *file_format,
                    s3_endpoint_override: s3_endpoint_override.clone(),
                }
            },
            DataSourceOptions::BigQuery { table, query } => DataSourceOptions::BigQuery {
                table: table.clone(),
                query: query.clone(),
            },
            DataSourceOptions::Redshift { table, query, schema_name, database } => {
                DataSourceOptions::Redshift {
                    table: table.clone(),
                    query: query.clone(),
                    schema_name: schema_name.clone(),
                    database: database.clone(),
                }
            },
            DataSourceOptions::Snowflake { table, query, schema_name, database } => {
                DataSourceOptions::Snowflake {
                    table: table.clone(),
                    query: query.clone(),
                    schema_name: schema_name.clone(),
                    database: database.clone(),
                }
            },
            DataSourceOptions::Kafka { bootstrap_servers, topic } => DataSourceOptions::Kafka {
                bootstrap_servers: bootstrap_servers.clone(),
                topic: topic.clone(),
            },
            DataSourceOptions::Kinesis { region, stream_name } => DataSourceOptions::Kinesis {
                region: region.clone(),
                stream_name: stream_name.clone(),
            },
            DataSourceOptions::Push { batch_source } => {
                let b = match batch_source {
                    Some(inner) => {
                        proof {
                            assert(decreases_to!(*self => (*self)->batch_source));
                        }
                        Some(Box::new((&**inner).clone()))
                    },
                    None => None,
                };
                DataSourceOptions::Push { batch_source: b }
            },
            DataSourceOptions::Request { schema } => DataSourceOptions::Request {
                schema: schema.clone(),
            },
            DataSourceOptions::Custom { class_type, config } => DataSourceOptions::Custom {
                class_type: class_type.clone(),
                config: config.clone(),
            },
            DataSourceOptions::Spark { table, query, path, file_format } => {
                DataSourceOptions::Spark {
                    table: table.clone(),
                    query: query.clone(),
                    path: path.clone(),
                    file_format: file_format.clone(),
                }
            },
            DataSourceOptions::Trino { table, query } => DataSourceOptions::Trino {
                table: table.clone(),
                query: query.clone(),
            },
            DataSourceOptions::Athena { table, query, database, data_source } => {
                DataSourceOptions::Athena {
                    table: table.clone(),
                    query: query.clone(),
                    database: database.clone(),
                    data_source: data_source.clone(),
                }
            },
        }
    }
}

impl Clone for DataSource {
    fn clone(&self) -> (r: Self)
        decreases self,
    {
        proof {
            assert(decreases_to!(*self => self.options));
        }
        DataSource {
            name: self.name.clone(),
            project: self.project.clone(),
            source_type: self.source_type,
            timestamp_field: self.timestamp_field.clone(),
            created_timestamp_column: self.created_timestamp_column.clone(),
            field_mapping: self.field_mapping.clone(),
            description: self.description.clone(),
            tags: self.tags.clone(),
            owner: self.owner.clone(),
            date_partition_column: self.date_partition_column.clone(),
            timestamp_field_type: self.timestamp_field_type.clone(),
            options: self.options.clone(),
        }
    }
}

impl DataSource {
    /// A data source with the given name and options; its source type is the
    /// one that the options denote, and every other field is empty.
    pub fn new(name: &str, options: DataSourceOptions) -> (r: Self)
        ensures
            r.name@ == name@,
            r.project@ == Seq::<char>::empty(),
            r.source_type == source_type_of_options(options),
            r.timestamp_field is None,
            r.created_timestamp_column is None,
            r.field_mapping@ == Map::<String, String>::empty(),
            r.description@ == Seq::<char>::empty(),
            r.tags@ == Map::<String, String>::empty(),
            r.owner@ == Seq::<char>::empty(),
            r.date_partition_column is None,
            r.timestamp_field_type is None,
            r.options == options,
    {
        let source_type = match &options {
            DataSourceOptions::File { .. } => SourceType::BatchFile,
            DataSourceOptions::BigQuery { .. } => SourceType::BatchBigQuery,
            DataSourceOptions::Redshift { .. } => SourceType::BatchRedshift,
            DataSourceOptions::Snowflake { .. } => SourceType::BatchSnowflake,
            DataSourceOptions::Kafka { .. } => SourceType::StreamKafka,
            DataSourceOptions::Kinesis { .. } => SourceType::StreamKinesis,
            DataSourceOptions::Push { .. } => SourceType::PushSource,
            DataSourceOptions::Request { .. } => SourceType::RequestSource,
            DataSourceOptions::Custom { .. } => SourceType::CustomSource,
            DataSourceOptions::Spark { .. } => SourceType::BatchSpark,
            DataSourceOptions::Trino { .. } => SourceType::BatchTrino,
            DataSourceOptions::Athena { .. } => SourceType::BatchAthena,
        };
        DataSource {
            name: String::from_str(name),
            project: String::new(),
            source_type,
            timestamp_field: None,
            created_timestamp_column: None,
            field_mapping: HashMap::new(),
            description: String::new(),
            tags: HashMap::new(),
            owner: String::new(),
            date_partition_column: None,
            timestamp_field_type: None,
            options,
        }
    }
}

/// A named, typed feature column.
#[derive(Debug, Clone)]
pub struct Feature {
    pub name: String,
    pub value_type: ValueType,
    pub description: String,
    pub tags: HashMap<String, String>,
    pub vector_index: bool,
    pub vector_search_metric: Option<String>,
    pub vector_length: i32,
}

impl Feature {
    /// A feature with the given name and value type and no other attributes.
    pub fn new(name: &str, value_type: ValueType) -> (r: Self)
        ensures
            r.name@ == name@,
            r.value_type == value_type,
            r.description@ == Seq::<char>::empty(),
            r.tags@ == Map::<String, String>::empty(),
            !r.vector_index,
            r.vector_search_metric is None,
            r.vector_length == 0,
    {
        Feature {
            name: String::from_str(name),
            value_type,
            description: String::new(),
            tags: HashMap::new(),
            vector_index: false,
            vector_search_metric: None,
            vector_length: 0,
        }
    }
}

/// A named field typed by the Feast type system.
#[derive(Debug, Clone)]
pub struct Field {
    pub name: String,
    pub dtype: FeastType,
    pub description: String,
    pub tags: HashMap<String, String>,
    pub vector_index: bool,
    pub vector_search_metric: Option<String>,
    pub vector_length: i32,
}

impl Field {
    /// A field with the given name and type and no other attributes.
    pub fn new(name: &str, dtype: FeastType) -> (r: Self)
        ensures
            r.name@ == name@,
            r.dtype == dtype,
            r.description@ == Seq::<char>::empty(),
            r.tags@ == Map::<String, String>::empty(),
            !r.vector_index,
            r.vector_search_metric is None,
            r.vector_length == 0,
    {
        Field {
            name: String::from_str(name),
            dtype,
            description: String::new(),
            tags: HashMap::new(),
            vector_index: false,
            vector_search_metric: None,
            vector_length: 0,
        }
    }

    /// The field of a feature: the same attributes, with the feature's value
    /// type mapped into the Feast type system.
    pub fn from_feature(f: Feature) -> (r: Self)
        ensures
            r.name == f.name,
            is_feast_type_of(f.value_type, r.dtype),
            r.description == f.description,
            r.tags == f.tags,
            r.vector_index == f.vector_index,
            r.vector_search_metric == f.vector_search_metric,
            r.vector_length == f.vector_length,
    {
        Field {
            name: f.name,
            dtype: FeastType::from_value_type(f.value_type),
            description: f.description,
            tags: f.tags,
            vector_index: f.vector_index,
            vector_search_metric: f.vector_search_metric,
            vector_length: f.vector_length,
        }
    }
}

impl From<Feature> for Field {
    fn from(f: Feature) -> Self {
        Field::from_feature(f)
    }
}

impl vstd::std_specs::convert::FromSpecImpl<Feature> for Field {
    open spec fn obeys_from_spec() -> bool {
        false
    }

    open spec fn from_spec(v: Feature) -> Field {
        arbitrary()
    }
}

/// The lifecycle state of a feature view.
#[derive(Debug, Clone, Copy, PartialEq, Eq, Structural)]
pub enum FeatureViewState {
    StateUnspecified,
    Created,
    Generated,
    Materializing,
    AvailableOnline,
}

/// The numeric code of a feature view state.
pub open spec fn feature_view_state_code(s: FeatureViewState) -> i32 {
    match s {
        FeatureViewState::StateUnspecified => 0,
        FeatureViewState::Created => 1,
        FeatureViewState::Generated => 2,
        FeatureViewState::Materializing => 3,
        FeatureViewState::AvailableOnline => 4,
    }
}

/// The feature view state with code `v`, if any.
pub open spec fn feature_view_state_of_code(v: i32) -> Option<FeatureViewState> {
    if v == 0 {
        Some(FeatureViewState::StateUnspecified)
    } else if v == 1 {
        Some(FeatureViewState::Created)
    } else if v == 2 {
        Some(FeatureViewState::Generated)
    } else if v == 3 {
        Some(FeatureViewState::Materializing)
    } else if v == 4 {
        Some(FeatureViewState::AvailableOnline)
    } else {
        None
    }
}

/// The allowed transitions of the feature view lifecycle.
pub open spec fn state_transition_allowed(from: FeatureViewState, to: FeatureViewState) -> bool {
    match (from, to) {
        (_, FeatureViewState::StateUnspecified) => false,
        (FeatureViewState::StateUnspecified, FeatureViewState::Created) => true,
        (FeatureViewState::StateUnspecified, FeatureViewState::Materializing) => true,
        (FeatureViewState::Created, FeatureViewState::Materializing) => true,
        (FeatureViewState::Created, FeatureViewState::Generated) => true,
        (FeatureViewState::Generated, FeatureViewState::Materializing) => true,
        (FeatureViewState::Materializing, FeatureViewState::AvailableOnline) => true,
        (FeatureViewState::AvailableOnline, FeatureViewState::Materializing) => true,
        _ => false,
    }
}

impl FeatureViewState {
    /// The state with code `v`, or `None` for an unknown code.
    pub fn from_i32(v: i32) -> (r: Option<Self>)
        ensures
            r == feature_view_state_of_code(v),
    {
        match v {
            0 => Some(FeatureViewState::StateUnspecified),
            1 => Some(FeatureViewState::Created),
            2 => Some(FeatureViewState::Generated),
            3 => Some(FeatureViewState::Materializing),
            4 => Some(FeatureViewState::AvailableOnline),
            _ => None,
        }
    }

    /// The numeric code of this state.
    pub fn to_i32(&self) -> (r: i32)
        ensures
            r == feature_view_state_code(*self),
    {
        match self {
            FeatureViewState::StateUnspecified => 0,
            FeatureViewState::Created => 1,
            FeatureViewState::Generated => 2,
            FeatureViewState::Materializing => 3,
            FeatureViewState::AvailableOnline => 4,
        }
    }

    /// Whether a feature view in this state may move to `target`.
    pub fn can_transition_to(&self, target: &Self) -> (r: bool)
        ensures
            r == state_transition_allowed(*self, *target),
    {
        match (self, target) {
            (_, FeatureViewState::StateUnspecified) => false,
            (FeatureViewState::StateUnspecified, FeatureViewState::Created) => true,
            (FeatureViewState::StateUnspecified, FeatureViewState::Materializing) => true,
            (FeatureViewState::Created, FeatureViewState::Materializing) => true,
            (FeatureViewState::Created, FeatureViewState::Generated) => true,
            (FeatureViewState::Generated, FeatureViewState::Materializing) => true,
            (FeatureViewState::Materializing, FeatureViewState::AvailableOnline) => true,
            (FeatureViewState::AvailableOnline, FeatureViewState::Materializing) => true,
            _ => false,
        }
    }
}

/// The lifecycle never returns to the unspecified state, never stays in place,
/// and every state but the unspecified one is reached only from a state that
/// precedes it: `Created` only from the start, `Generated` only from
/// `Created`, `AvailableOnline` only from `Materializing`.
pub proof fn lemma_state_transitions(from: FeatureViewState, to: FeatureViewState)
    ensures
        state_transition_allowed(from, to) ==> to != FeatureViewState::StateUnspecified,
        state_transition_allowed(from, to) ==> from != to,
        state_transition_allowed(from, FeatureViewState::Created) ==> from
            == FeatureViewState::StateUnspecified,
        state_transition_allowed(from, FeatureViewState::Generated) ==> from
            == FeatureViewState::Created,
        state_transition_allowed(from, FeatureViewState::AvailableOnline) ==> from
            == FeatureViewState::Materializing,
        state_transition_allowed(from, to) ==> state_transition_allowed(
            to,
            FeatureViewState::Materializing,
        ) || to == FeatureViewState::Materializing,
{
}

/// Every state's code maps back to it.
pub proof fn lemma_feature_view_state_code_roundtrip(s: FeatureViewState, v: i32)
    ensures
        feature_view_state_of_code(feature_view_state_code(s)) == Some(s),
        feature_view_state_of_code(v) matches Some(t) ==> feature_view_state_code(t) == v,
{
}

/// A business entity and the join keys that identify it.
#[derive(Debug, Clone)]
pub struct Entity {
    pub name: String,
    pub project: String,
    pub join_keys: Vec<String>,
    pub value_type: ValueType,
    pub description: String,
    pub tags: HashMap<String, String>,
    pub owner: String,
    pub created_timestamp: Option<UtcDateTime>,
    pub last_updated_timestamp: Option<UtcDateTime>,
}

impl Entity {
    /// An entity with the given name and join keys, of value type `String`.
    pub fn new(name: &str, join_keys: Vec<String>) -> (r: Self)
        ensures
            r.name@ == name@,
            r.project@ == Seq::<char>::empty(),
            r.join_keys == join_keys,
            r.value_type == ValueType::String,
            r.description@ == Seq::<char>::empty(),
            r.tags@ == Map::<String, String>::empty(),
            r.owner@ == Seq::<char>::empty(),
            r.created_timestamp is None,
            r.last_updated_timestamp is None,
    {
        Entity {
            name: String::from_str(name),
            project: String::new(),
            join_keys,
            value_type: ValueType::String,
            description: String::new(),
            tags: HashMap::new(),
            owner: String::new(),
            created_timestamp: None,
            last_updated_timestamp: None,
        }
    }
}

impl Default for Entity {
    fn default() -> (r: Self)
        ensures
            r.name@ == Seq::<char>::empty(),
            r.project@ == Seq::<char>::empty(),
            r.join_keys@.len() == 0,
            r.value_type == ValueType::Invalid,
            r.description@ == Seq::<char>::empty(),
            r.tags@ == Map::<String, String>::empty(),
            r.owner@ == Seq::<char>::empty(),
            r.created_timestamp is None,
            r.last_updated_timestamp is None,
    {
        Entity {
            name: String::new(),
            project: String::new(),
            join_keys: Vec::new(),
            value_type: ValueType::Invalid,
            description: String::new(),
            tags: HashMap::new(),
            owner: String::new(),
            created_timestamp: None,
            last_updated_timestamp: None,
        }
    }
}

/// The features of one feature view that a request or service selects.
#[derive(Debug, Clone)]
pub struct FeatureViewProjection {
    pub feature_view_name: String,
    pub feature_view_name_alias: Option<String>,
    pub feature_columns: Vec<Feature>,
    pub join_key_map: HashMap<String, String>,
    pub timestamp_field: Option<String>,
    pub date_partition_column: Option<String>,
    pub created_timestamp_column: Option<String>,
    pub batch_source: Option<DataSource>,
    pub stream_source: Option<DataSource>,
    pub view_type: String,
}

/// A group of features computed from one source and keyed by entities.
#[derive(Debug, Clone)]
pub struct FeatureView {
    pub name: String,
    pub project: String,
    pub entities: Vec<String>,
    pub features: Vec<Feature>,
    pub tags: HashMap<String, String>,
    pub ttl: Option<Duration>,
    pub batch_source: Option<DataSource>,
    pub stream_source: Option<DataSource>,
    pub online: bool,
    pub offline: bool,
    pub description: String,
    pub owner: String,
    pub org: String,
    pub mode: Option<String>,
    pub enable_validation: bool,
    pub version: String,
    pub disabled: bool,
    pub entity_columns: Vec<Feature>,
    pub materialization_intervals: Vec<(UtcDateTime, UtcDateTime)>,
    pub created_timestamp: Option<UtcDateTime>,
    pub last_updated_timestamp: Option<UtcDateTime>,
    pub state: FeatureViewState,
}

/// The largest end of the given intervals, or `None` when there are none.
pub open spec fn max_interval_end(intervals: Seq<(UtcDateTime, UtcDateTime)>) -> Option<UtcDateTime>
    decreases intervals.len(),
{
    if intervals.len() == 0 {
        None
    } else {
        let last = intervals.last().1;
        match max_interval_end(intervals.drop_last()) {
            None => Some(last),
            Some(m) => Some(if dt_before(m, last) { last } else { m }),
        }
    }
}

/// The maximum end is the end of one of the intervals and no interval ends
/// after it.
pub proof fn lemma_max_interval_end(intervals: Seq<(UtcDateTime, UtcDateTime)>)
    ensures
        max_interval_end(intervals) is None <==> intervals.len() == 0,
        max_interval_end(intervals) matches Some(m) ==> (exists|i: int|
            0 <= i < intervals.len() && #[trigger] intervals[i].1 == m),
        max_interval_end(intervals) matches Some(m) ==> (forall|i: int|
            0 <= i < intervals.len() ==> !dt_before(m, #[trigger] intervals[i].1)),
    decreases intervals.len(),
{
    if intervals.len() > 0 {
        let init = intervals.drop_last();
        lemma_max_interval_end(init);
        let m = max_interval_end(intervals)->0;
        if let Some(mi) = max_interval_end(init) {
            if dt_before(mi, intervals.last().1) {
                assert(intervals[intervals.len() - 1].1 == m);
            } else {
                let j = choose|j: int| 0 <= j < init.len() && #[trigger] init[j].1 == mi;
                assert(intervals[j].1 == m);
            }
        } else {
            assert(intervals[intervals.len() - 1].1 == m);
        }
        assert forall|i: int| 0 <= i < intervals.len() implies !dt_before(m, #[trigger] intervals[i].1) by {
            if i < intervals.len() - 1 {
                assert(intervals[i] == init[i]);
            }
        }
    }
}

/// Whether `r` is a new feature view named `name`: online and not offline,
/// version `latest`, in the unspecified state, with every other field empty.
pub open spec fn is_fresh_feature_view(r: FeatureView, name: Seq<char>) -> bool {
    &&& r.name@ == name
    &&& r.project@ == Seq::<char>::empty()
    &&& r.entities@.len() == 0
    &&& r.features@.len() == 0
    &&& r.tags@ == Map::<String, String>::empty()
    &&& r.ttl is None
    &&& r.batch_source is None
    &&& r.stream_source is None
    &&& r.online
    &&& !r.offline
    &&& r.description@ == Seq::<char>::empty()
    &&& r.owner@ == Seq::<char>::empty()
    &&& r.org@ == Seq::<char>::empty()
    &&& r.mode is None
    &&& !r.enable_validation
    &&& r.version@ == "latest"@
    &&& !r.disabled
    &&& r.entity_columns@.len() == 0
    &&& r.materialization_intervals@.len() == 0
    &&& r.created_timestamp is None
    &&& r.last_updated_timestamp is None
    &&& r.state == FeatureViewState::StateUnspecified
}

impl FeatureView {
    /// A feature view with the given name, online and not offline, version
    /// `latest`, in the unspecified state, with every other field empty.
    pub fn new(name: &str) -> (r: Self)
        ensures
            is_fresh_feature_view(r, name@),
    {
        FeatureView {
            name: String::from_str(name),
            project: String::new(),
            entities: Vec::new(),
            features: Vec::new(),
            tags: HashMap::new(),
            ttl: None,
            batch_source: None,
            stream_source: None,
            online: true,
            offline: false,
            description: String::new(),
            owner: String::new(),
            org: String::new(),
            mode: None,
            enable_validation: false,
            version: String::from_str("latest"),
            disabled: false,
            entity_columns: Vec::new(),
            materialization_intervals: Vec::new(),
            created_timestamp: None,
            last_updated_timestamp: None,
            state: FeatureViewState::StateUnspecified,
        }
    }

    /// The latest end of this view's materialization intervals.
    pub fn most_recent_end_time(&self) -> (r: Option<UtcDateTime>)
        ensures
            r == max_interval_end(self.materialization_intervals@),
    {
        let mut best: Option<UtcDateTime> = None;
        let n = self.materialization_intervals.len();
        let mut i: usize = 0;
        while i < n
            invariant
                n == self.materialization_intervals@.len(),
                i <= n,
                best == max_interval_end(self.materialization_intervals@.take(i as int)),
            decreases n - i,
        {
            let end = self.materialization_intervals[i].1;
            proof {
                let s = self.materialization_intervals@.take(i as int + 1);
                assert(s.drop_last() =~= self.materialization_intervals@.take(i as int));
            }
            best = match best {
                None => Some(end),
                Some(m) => Some(if m.is_before(&end) { end } else { m }),
            };
            i = i + 1;
        }
        proof {
            assert(self.materialization_intervals@.take(n as int)
                =~= self.materialization_intervals@);
        }
        best
    }
}

/// A feature view whose features are computed at request time.
#[derive(Debug, Clone)]
pub struct OnDemandFeatureView {
    pub name: String,
    pub project: String,
    pub features: Vec<Feature>,
    pub sources: Vec<(String, OnDemandSource)>,
    pub feature_transformation: Option<FeatureTransformation>,
    pub description: String,
    pub tags: HashMap<String, String>,
    pub owner: String,
    pub mode: String,
    pub write_to_online_store: bool,
    pub entities: Vec<String>,
    pub entity_columns: Vec<Feature>,
    pub singleton: bool,
    pub version: String,
    pub disabled: bool,
}

impl Default for OnDemandFeatureView {
    /// An on-demand feature view with every field empty.
    fn default() -> (r: Self)
        ensures
            r.name@ == Seq::<char>::empty(),
            r.project@ == Seq::<char>::empty(),
            r.features@.len() == 0,
            r.sources@.len() == 0,
            r.feature_transformation is None,
            r.description@ == Seq::<char>::empty(),
            r.tags@ == Map::<String, String>::empty(),
            r.owner@ == Seq::<char>::empty(),
            r.mode@ == Seq::<char>::empty(),
            !r.write_to_online_store,
            r.entities@.len() == 0,
            r.entity_columns@.len() == 0,
            !r.singleton,
            r.version@ == Seq::<char>::empty(),
            !r.disabled,
    {
        OnDemandFeatureView {
            name: String::new(),
            project: String::new(),
            features: Vec::new(),
            sources: Vec::new(),
            feature_transformation: None,
            description: String::new(),
            tags: HashMap::new(),
            owner: String::new(),
            mode: String::new(),
            write_to_online_store: false,
            entities: Vec::new(),
            entity_columns: Vec::new(),
            singleton: false,
            version: String::new(),
            disabled: false,
        }
    }
}

/// An input of an on-demand feature view.
#[derive(Debug, Clone)]
pub enum OnDemandSource {
    FeatureView(FeatureView),
    FeatureViewProjection(FeatureViewProjection),
    RequestDataSource(DataSource),
}

/// The transformation of an on-demand feature view.
#[derive(Debug, Clone)]
pub struct FeatureTransformation {
    pub udf: Option<UserDefinedFunction>,
    pub substrait_plan: Option<Vec<u8>>,
}

/// A serialized user-defined function.
#[derive(Debug, Clone)]
pub struct UserDefinedFunction {
    pub name: String,
    pub body: Vec<u8>,
    pub body_text: String,
    pub mode: String,
}

/// A named set of feature view projections served together.
#[derive(Debug, Clone)]
pub struct FeatureService {
    pub name: String,
    pub project: String,
    pub features: Vec<FeatureViewProjection>,
    pub tags: HashMap<String, String>,
    pub description: String,
    pub owner: String,
    pub precompute_online: bool,
    pub logging_config: Option<LoggingConfig>,
    pub created_timestamp: Option<UtcDateTime>,
    pub last_updated_timestamp: Option<UtcDateTime>,
}

impl FeatureService {
    /// A feature service with the given name and every other field empty.
    pub fn new(name: &str) -> (r: Self)
        ensures
            r.name@ == name@,
            r.project@ == Seq::<char>::empty(),
            r.features@.len() == 0,
            r.tags@ == Map::<String, String>::empty(),
            r.description@ == Seq::<char>::empty(),
            r.owner@ == Seq::<char>::empty(),
            !r.precompute_online,
            r.logging_config is None,
            r.created_timestamp is None,
            r.last_updated_timestamp is None,
    {
        FeatureService {
            name: String::from_str(name),
            project: String::new(),
            features: Vec::new(),
            tags: HashMap::new(),
            description: String::new(),
            owner: String::new(),
            precompute_online: false,
            logging_config: None,
            created_timestamp: None,
            last_updated_timestamp: None,
        }
    }
}

impl Default for FeatureService {
    /// A feature service with every field empty.
    fn default() -> (r: Self)
        ensures
            r.name@ == Seq::<char>::empty(),
            r.project@ == Seq::<char>::empty(),
            r.features@.len() == 0,
            r.tags@ == Map::<String, String>::empty(),
            r.description@ == Seq::<char>::empty(),
            r.owner@ == Seq::<char>::empty(),
            !r.precompute_online,
            r.logging_config is None,
            r.created_timestamp is None,
            r.last_updated_timestamp is None,
    {
        proof {
            reveal_strlit("");
        }
        FeatureService::new("")
    }
}

/// Where the requests of a feature service are logged.
#[derive(Debug, Clone)]
pub enum LoggingDestination {
    File { path: String, s3_endpoint_override: Option<String>, partition_by: Vec<String> },
    BigQuery { table_ref: String },
    Redshift { table_name: String },
    Snowflake { table_name: String },
    Athena { table_name: String },
    Custom { kind: String, config: Vec<(String, String)> },
}

/// The logging of a feature service. The sample rate is an `f32` that this
/// library carries by its IEEE-754 bit pattern.
#[derive(Debug, Clone)]
pub struct LoggingConfig {
    pub sample_rate_bits: u32,
    pub destination: LoggingDestination,
}

/// The identity of one entity: its join keys, and for each the value's bytes
/// and value type. The three vectors run in parallel.
#[derive(Debug, Clone)]
pub struct EntityKey {
    pub join_keys: Vec<String>,
    pub entity_values: Vec<Vec<u8>>,
    pub value_types: Vec<ValueType>,
}

impl EntityKey {
    /// An entity key with the given join keys and no values yet.
    pub fn new(join_keys: Vec<String>) -> (r: Self)
        ensures
            r.join_keys == join_keys,
            r.entity_values@.len() == 0,
            r.value_types@.len() == 0,
    {
        EntityKey { join_keys, entity_values: Vec::new(), value_types: Vec::new() }
    }
}

/// Where the registry of a repository is kept.
#[derive(Debug, Clone)]
pub struct RegistryConfig {
    pub registry_type: String,
    pub path: String,
    pub cache_ttl_seconds: i64,
    pub cache_mode: String,
}

impl RegistryConfig {
    /// A file registry at `path`, cached for ten minutes in sync mode.
    pub fn file(path: &str) -> (r: Self)
        ensures
            r.registry_type@ == "file"@,
            r.path@ == path@,
            r.cache_ttl_seconds == 600,
            r.cache_mode@ == "sync"@,
    {
        RegistryConfig {
            registry_type: String::from_str("file"),
            path: String::from_str(path),
            cache_ttl_seconds: 600,
            cache_mode: String::from_str("sync"),
        }
    }

    /// A SQL registry at `path`, cached for ten minutes in sync mode.
    pub fn sql(path: &str) -> (r: Self)
        ensures
            r.registry_type@ == "sql"@,
            r.path@ == path@,
            r.cache_ttl_seconds == 600,
            r.cache_mode@ == "sync"@,
    {
        RegistryConfig {
            registry_type: String::from_str("sql"),
            path: String::from_str(path),
            cache_ttl_seconds: 600,
            cache_mode: String::from_str("sync"),
        }
    }
}

/// The online store of a repository.
#[derive(Debug, Clone)]
pub enum OnlineStoreConfig {
    Sqlite { path: String },
    Redis { connection_string: String, key_ttl_seconds: Option<u64> },
}

/// The offline store of a repository.
#[derive(Debug, Clone)]
pub enum OfflineStoreConfig {
    DuckDb { path: Option<String> },
}

/// The configuration of a feature repository.
#[derive(Debug, Clone)]
pub struct RepoConfig {
    pub project: String,
    pub provider: String,
    pub registry: RegistryConfig,
    pub online_store: OnlineStoreConfig,
    pub offline_store: OfflineStoreConfig,
    pub entity_key_serialization_version: i32,
    pub cache_ttl_seconds: i64,
    pub cache_mode: String,
}

impl Default for RepoConfig {
    /// Project `default` on the local provider, a file registry and a SQLite
    /// online store under `data/`, an in-memory DuckDB offline store, entity
    /// key serialization version 3, and a ten-minute sync cache.
    fn default() -> (r: Self)
        ensures
            r.project@ == "default"@,
            r.provider@ == "local"@,
            r.registry.registry_type@ == "file"@,
            r.registry.path@ == "data/registry.db"@,
            r.registry.cache_ttl_seconds == 600,
            r.registry.cache_mode@ == "sync"@,
            r.online_store matches OnlineStoreConfig::Sqlite { path } && path@ == "data/online.db"@,
            r.offline_store matches OfflineStoreConfig::DuckDb { path } && path is None,
            r.entity_key_serialization_version == 3,
            r.cache_ttl_seconds == 600,
            r.cache_mode@ == "sync"@,
    {
        RepoConfig {
            project: String::from_str("default"),
            provider: String::from_str("local"),
            registry: RegistryConfig::file("data/registry.db"),
            online_store: OnlineStoreConfig::Sqlite { path: String::from_str("data/online.db") },
            offline_store: OfflineStoreConfig::DuckDb { path: None },
            entity_key_serialization_version: 3,
            cache_ttl_seconds: 600,
            cache_mode: String::from_str("sync"),
        }
    }
}

/// A feature view together with the projection of it that a request selects.
#[derive(Debug, Clone)]
pub struct FeatureViewWithProjection {
    pub feature_view: FeatureView,
    pub projection: FeatureViewProjection,
}

/// One row to write to the online store: an entity, its feature values by
/// feature name, and the row's event time.
#[derive(Debug, Clone)]
pub struct OnlineWriteRecord {
    pub entity_key: EntityKey,
    pub values: Vec<(String, Vec<u8>)>,
    pub timestamp: UtcDateTime,
    pub feature_view_name: String,
}

/// Whether no feature name occurs twice among a record's values.
pub open spec fn record_keys_distinct(rec: OnlineWriteRecord) -> bool {
    crate::kv::distinct_keys(rec.values@.map_values(|p: (String, Vec<u8>)| (p.0@, p.1@)))
}

/// The source types carry Feast's fixed `DataSource.SourceType` numbers:
/// each variant's code is its number in Feast's protocol, each of those
/// numbers reads back as that variant, and no other number names a source
/// type.
pub proof fn lemma_source_type_feast_numbers()
    ensures
        source_type_code(SourceType::Invalid) == 0,
        source_type_code(SourceType::BatchFile) == 1,
        source_type_code(SourceType::BatchBigQuery) == 2,
        source_type_code(SourceType::StreamKafka) == 3,
        source_type_code(SourceType::StreamKinesis) == 4,
        source_type_code(SourceType::BatchRedshift) == 5,
        source_type_code(SourceType::CustomSource) == 6,
        source_type_code(SourceType::RequestSource) == 7,
        source_type_code(SourceType::BatchSnowflake) == 8,
        source_type_code(SourceType::PushSource) == 9,
        source_type_code(SourceType::BatchTrino) == 10,
        source_type_code(SourceType::BatchSpark) == 11,
        source_type_code(SourceType::BatchAthena) == 12,
        source_type_of_code(0) == Some(SourceType::Invalid),
        source_type_of_code(1) == Some(SourceType::BatchFile),
        source_type_of_code(2) == Some(SourceType::BatchBigQuery),
        source_type_of_code(3) == Some(SourceType::StreamKafka),
        source_type_of_code(4) == Some(SourceType::StreamKinesis),
        source_type_of_code(5) == Some(SourceType::BatchRedshift),
        source_type_of_code(6) == Some(SourceType::CustomSource),
        source_type_of_code(7) == Some(SourceType::RequestSource),
        source_type_of_code(8) == Some(SourceType::BatchSnowflake),
        source_type_of_code(9) == Some(SourceType::PushSource),
        source_type_of_code(10) == Some(SourceType::BatchTrino),
        source_type_of_code(11) == Some(SourceType::BatchSpark),
        source_type_of_code(12) == Some(SourceType::BatchAthena),
        forall|v: i32| (v < 0 || v > 12) ==> source_type_of_code(v) is None,
{
}

/// The options of each kind of data source denote the source type with
/// Feast's number for that kind: a file 1, BigQuery 2, Kafka 3, Kinesis 4,
/// Redshift 5, a custom source 6, a request source 7, Snowflake 8, a push
/// source 9, Trino 10, Spark 11 and Athena 12.
pub proof fn lemma_options_source_numbers(o: DataSourceOptions)
    ensures
        source_type_code(source_type_of_options(o)) == match o {
            DataSourceOptions::File { .. } => 1i32,
            DataSourceOptions::BigQuery { .. } => 2i32,
            DataSourceOptions::Kafka { .. } => 3i32,
            DataSourceOptions::Kinesis { .. } => 4i32,
            DataSourceOptions::Redshift { .. } => 5i32,
            DataSourceOptions::Custom { .. } => 6i32,
            DataSourceOptions::Request { .. } => 7i32,
            DataSourceOptions::Snowflake { .. } => 8i32,
            DataSourceOptions::Push { .. } => 9i32,
            DataSourceOptions::Trino { .. } => 10i32,
            DataSourceOptions::Spark { .. } => 11i32,
            DataSourceOptions::Athena { .. } => 12i32,
        },
{
}

/// The feature view states carry fixed numbers: unspecified 0, created 1,
/// generated 2, materializing 3, available online 4; each reads back as its
/// state and no other number names one.
pub proof fn lemma_feature_view_state_numbers()
    ensures
        feature_view_state_code(FeatureViewState::StateUnspecified) == 0,
        feature_view_state_code(FeatureViewState::Created) == 1,
        feature_view_state_code(FeatureViewState::Generated) == 2,
        feature_view_state_code(FeatureViewState::Materializing) == 3,
        feature_view_state_code(FeatureViewState::AvailableOnline) == 4,
        feature_view_state_of_code(0) == Some(FeatureViewState::StateUnspecified),
        feature_view_state_of_code(1) == Some(FeatureViewState::Created),
        feature_view_state_of_code(2) == Some(FeatureViewState::Generated),
        feature_view_state_of_code(3) == Some(FeatureViewState::Materializing),
        feature_view_state_of_code(4) == Some(FeatureViewState::AvailableOnline),
        forall|v: i32| (v < 0 || v > 4) ==> feature_view_state_of_code(v) is None,
{
}

} // verus!
