//! Conversions between the registry objects and their protocol messages.
//! Optional text is written as empty text when absent and read back as absent
//! when empty; codes that name no value read as the `Invalid` or unspecified
//! value.
use vstd::prelude::*;

use crate::proto;
use crate::source::opt_view;
use crate::time::{chrono_accepts, datetime_from_timestamp, Duration, UtcDateTime};
use crate::types::{
    feature_view_state_code, feature_view_state_of_code, source_type_code, source_type_of_code,
    source_type_of_options, DataSource, DataSourceOptions, Entity, Feature, FeatureService,
    FeatureTransformation, FeatureView, FeatureViewProjection, FeatureViewState, FileFormat,
    LoggingConfig, LoggingDestination, OnDemandFeatureView, OnDemandSource, SourceType,
    UserDefinedFunction,
};
use crate::value_type::{value_type_code, value_type_of_code, ValueType};

verus! {

/// Absent for empty text, the text otherwise.
pub open spec fn nonempty_opt(s: Seq<char>) -> Option<Seq<char>> {
    if s.len() == 0 {
        None
    } else {
        Some(s)
    }
}

/// The text, or empty text when absent.
pub open spec fn or_empty(o: Option<Seq<char>>) -> Seq<char> {
    match o {
        Some(s) => s,
        None => Seq::empty(),
    }
}

/// Whether optional text is absent or not empty: what survives a write and
/// a read unchanged.
pub open spec fn opt_text_canonical(o: Option<String>) -> bool {
    o matches Some(s) ==> s@.len() > 0
}

/// `None` for empty text, a copy of the text otherwise.
fn opt_from_text(s: &String) -> (r: Option<String>)
    ensures
        opt_view(r) == nonempty_opt(s@),
{
    if s.as_str().is_empty() {
        None
    } else {
        Some(s.clone())
    }
}

/// A copy of the text, or empty text when absent.
fn text_from_opt(o: &Option<String>) -> (r: String)
    ensures
        r@ == or_empty(opt_view(*o)),
{
    match o {
        Some(s) => s.clone(),
        None => String::new(),
    }
}

/// A copy of a byte string.
fn clone_bytes(v: &Vec<u8>) -> (r: Vec<u8>)
    ensures
        r@ == v@,
{
    vstd::slice::slice_to_vec(v.as_slice())
}

/// The value type with code `v`, or `Invalid` for a code that names none.
pub open spec fn vt_of_code(v: i32) -> ValueType {
    match value_type_of_code(v) {
        Some(t) => t,
        None => ValueType::Invalid,
    }
}

/// The value type with code `v`, or `Invalid`.
pub fn vt_from_proto(v: i32) -> (r: ValueType)
    ensures
        r == vt_of_code(v),
{
    match ValueType::from_i32(v) {
        Some(t) => t,
        None => ValueType::Invalid,
    }
}

/// The code of a value type.
pub fn vt_to_proto(v: ValueType) -> (r: i32)
    ensures
        r == value_type_code(v),
{
    v.to_i32()
}

/// The source type with code `v`, or `Invalid`.
pub open spec fn st_of_code(v: i32) -> SourceType {
    match source_type_of_code(v) {
        Some(t) => t,
        None => SourceType::Invalid,
    }
}

/// The source type with code `v`, or `Invalid`.
pub fn source_type_from_proto(v: i32) -> (r: SourceType)
    ensures
        r == st_of_code(v),
{
    match SourceType::from_i32(v) {
        Some(t) => t,
        None => SourceType::Invalid,
    }
}

// ---------------------------------------------------------------- features

/// A feature read from its message.
pub open spec fn feature_from_rel(p: proto::FeatureSpecV2, f: Feature) -> bool {
    &&& f.name@ == p.name@
    &&& f.value_type == vt_of_code(p.value_type)
    &&& f.description@ == p.description@
    &&& f.tags@ == p.tags@
    &&& f.vector_index == p.vector_index
    &&& opt_view(f.vector_search_metric) == nonempty_opt(p.vector_search_metric@)
    &&& f.vector_length == p.vector_length
}

/// A feature's message.
pub open spec fn feature_to_rel(f: Feature, p: proto::FeatureSpecV2) -> bool {
    &&& p.name@ == f.name@
    &&& p.value_type == value_type_code(f.value_type)
    &&& p.description@ == f.description@
    &&& p.tags@ == f.tags@
    &&& p.vector_index == f.vector_index
    &&& p.vector_search_metric@ == or_empty(opt_view(f.vector_search_metric))
    &&& p.vector_length == f.vector_length
}

/// Whether two features hold the same values.
pub open spec fn same_feature(a: Feature, b: Feature) -> bool {
    &&& a.name@ == b.name@
    &&& a.value_type == b.value_type
    &&& a.description@ == b.description@
    &&& a.tags@ == b.tags@
    &&& a.vector_index == b.vector_index
    &&& opt_view(a.vector_search_metric) == opt_view(b.vector_search_metric)
    &&& a.vector_length == b.vector_length
}

/// Features read from their messages, one for one.
pub open spec fn features_from_rel(ps: Seq<proto::FeatureSpecV2>, fs: Seq<Feature>) -> bool {
    ps.len() == fs.len() && forall|i: int| 0 <= i < ps.len() ==> feature_from_rel(#[trigger] ps[i], fs[i])
}

/// The messages of features, one for one.
pub open spec fn features_to_rel(fs: Seq<Feature>, ps: Seq<proto::FeatureSpecV2>) -> bool {
    ps.len() == fs.len() && forall|i: int| 0 <= i < fs.len() ==> feature_to_rel(#[trigger] fs[i], ps[i])
}

/// Whether two lists of features hold the same values.
pub open spec fn same_features(a: Seq<Feature>, b: Seq<Feature>) -> bool {
    a.len() == b.len() && forall|i: int| 0 <= i < a.len() ==> same_feature(#[trigger] a[i], b[i])
}

/// Reads a feature from its message.
pub fn feature_from_proto(p: &proto::FeatureSpecV2) -> (r: Feature)
    ensures
        feature_from_rel(*p, r),
{
    Feature {
        name: p.name.clone(),
        value_type: vt_from_proto(p.value_type),
        description: p.description.clone(),
        tags: p.tags.clone(),
        vector_index: p.vector_index,
        vector_search_metric: opt_from_text(&p.vector_search_metric),
        vector_length: p.vector_length,
    }
}

/// Writes a feature's message.
pub fn feature_to_proto(f: &Feature) -> (r: proto::FeatureSpecV2)
    ensures
        feature_to_rel(*f, r),
{
    proto::FeatureSpecV2 {
        name: f.name.clone(),
        value_type: vt_to_proto(f.value_type),
        tags: f.tags.clone(),
        description: f.description.clone(),
        vector_index: f.vector_index,
        vector_search_metric: text_from_opt(&f.vector_search_metric),
        vector_length: f.vector_length,
    }
}

/// Reads features from their messages.
pub fn features_from_proto(ps: &Vec<proto::FeatureSpecV2>) -> (r: Vec<Feature>)
    ensures
        features_from_rel(ps@, r@),
{
    let mut out: Vec<Feature> = Vec::new();
    let n = ps.len();
    let mut i: usize = 0;
    while i < n
        invariant
            n == ps@.len(),
            i <= n,
            out@.len() == i,
            forall|j: int| 0 <= j < i ==> feature_from_rel(#[trigger] ps@[j], out@[j]),
        decreases n - i,
    {
        out.push(feature_from_proto(&ps[i]));
        i = i + 1;
    }
    out
}

/// Writes the messages of features.
pub fn features_to_proto(fs: &Vec<Feature>) -> (r: Vec<proto::FeatureSpecV2>)
    ensures
        features_to_rel(fs@, r@),
{
    let mut out: Vec<proto::FeatureSpecV2> = Vec::new();
    let n = fs.len();
    let mut i: usize = 0;
    while i < n
        invariant
            n == fs@.len(),
            i <= n,
            out@.len() == i,
            forall|j: int| 0 <= j < i ==> feature_to_rel(#[trigger] fs@[j], out@[j]),
        decreases n - i,
    {
        out.push(feature_to_proto(&fs[i]));
        i = i + 1;
    }
    out
}

/// A feature whose search metric, where given, is not empty.
pub open spec fn feature_canonical(f: Feature) -> bool {
    opt_text_canonical(f.vector_search_metric)
}

/// A feature written and read back holds the values it had, where its
/// search metric, if given, is not empty.
pub proof fn lemma_feature_roundtrip(f: Feature, p: proto::FeatureSpecV2, g: Feature)
    requires
        feature_canonical(f),
        feature_to_rel(f, p),
        feature_from_rel(p, g),
    ensures
        same_feature(f, g),
{
    crate::value_type::lemma_value_type_code_roundtrip(f.value_type);
}

/// Features written and read back hold the values they had.
pub proof fn lemma_features_roundtrip(
    fs: Seq<Feature>,
    ps: Seq<proto::FeatureSpecV2>,
    gs: Seq<Feature>,
)
    requires
        forall|i: int| 0 <= i < fs.len() ==> feature_canonical(#[trigger] fs[i]),
        features_to_rel(fs, ps),
        features_from_rel(ps, gs),
    ensures
        same_features(fs, gs),
{
    assert forall|i: int| 0 <= i < fs.len() implies same_feature(#[trigger] fs[i], gs[i]) by {
        lemma_feature_roundtrip(fs[i], ps[i], gs[i]);
    }
}

// ------------------------------------------------------------ data sources

/// The file format a message names: Parquet, which is also what an unset
/// format reads as.
pub fn file_format_from_proto(f: &proto::FileFormat) -> (r: FileFormat)
    ensures
        r == FileFormat::Parquet,
{
    FileFormat::Parquet
}

/// The message of a file format: the protocol knows Parquet alone, and
/// every format is written as Parquet.
pub fn file_format_to_proto(f: &FileFormat) -> (r: proto::FileFormat)
    ensures
        r == (proto::FileFormat { format: Some(proto::FileFormatKind::ParquetFormat) }),
{
    proto::FileFormat { format: Some(proto::FileFormatKind::ParquetFormat) }
}

/// The options a data source message gives. Absent options read as an
/// empty Parquet file source.
pub open spec fn options_from_rel(o: Option<proto::DataSourceOptions>, d: DataSourceOptions) -> bool {
    match o {
        None => d matches DataSourceOptions::File { path, file_format, s3_endpoint_override } && path@.len()
            == 0 && file_format == FileFormat::Parquet && s3_endpoint_override is None,
        Some(proto::DataSourceOptions::FileOptions { file_format: _, uri, s3_endpoint_override: s3 }) => {
            d matches DataSourceOptions::File { path, file_format, s3_endpoint_override } && path@ == uri@
                && file_format == FileFormat::Parquet && opt_view(s3_endpoint_override) == nonempty_opt(
                s3@,
            )
        },
        Some(proto::DataSourceOptions::BigqueryOptions { table: t, query: q }) => {
            d matches DataSourceOptions::BigQuery { table, query } && opt_view(table) == nonempty_opt(t@)
                && opt_view(query) == nonempty_opt(q@)
        },
        Some(proto::DataSourceOptions::RedshiftOptions { table: t, query: q, schema: sc, database: db }) => {
            d matches DataSourceOptions::Redshift { table, query, schema_name, database } && opt_view(table)
                == nonempty_opt(t@) && opt_view(query) == nonempty_opt(q@) && opt_view(schema_name)
                == nonempty_opt(sc@) && opt_view(database) == nonempty_opt(db@)
        },
        Some(proto::DataSourceOptions::SnowflakeOptions { table: t, query: q, schema: sc, database: db }) => {
            d matches DataSourceOptions::Snowflake { table, query, schema_name, database } && opt_view(table)
                == nonempty_opt(t@) && opt_view(query) == nonempty_opt(q@) && opt_view(schema_name)
                == nonempty_opt(sc@) && opt_view(database) == nonempty_opt(db@)
        },
        Some(proto::DataSourceOptions::KafkaOptions { kafka_bootstrap_servers: b, topic: t }) => {
            d matches DataSourceOptions::Kafka { bootstrap_servers, topic } && bootstrap_servers@ == b@
                && topic@ == t@
        },
        Some(proto::DataSourceOptions::KinesisOptions { region: r, stream_name: n }) => {
            d matches DataSourceOptions::Kinesis { region, stream_name } && region@ == r@ && stream_name@
                == n@
        },
        Some(proto::DataSourceOptions::RequestDataOptions { schema: s }) => {
            d matches DataSourceOptions::Request { schema } && features_from_rel(s@, schema@)
        },
        Some(proto::DataSourceOptions::CustomOptions { configuration }) => {
            d matches DataSourceOptions::Custom { class_type, config } && class_type@.len() == 0
                && config@ == configuration@
        },
        Some(proto::DataSourceOptions::PushOptions) => {
            d matches DataSourceOptions::Push { batch_source } && batch_source is None
        },
        Some(
            proto::DataSourceOptions::SparkOptions {
                table: t,
                query: q,
                path: pa,
                file_format: ff,
                date_partition_column_format: _,
            },
        ) => {
            d matches DataSourceOptions::Spark { table, query, path, file_format } && opt_view(table)
                == nonempty_opt(t@) && opt_view(query) == nonempty_opt(q@) && opt_view(path)
                == nonempty_opt(pa@) && opt_view(file_format) == nonempty_opt(ff@)
        },
        Some(proto::DataSourceOptions::TrinoOptions { table: t, query: q }) => {
            d matches DataSourceOptions::Trino { table, query } && opt_view(table) == nonempty_opt(t@)
                && opt_view(query) == nonempty_opt(q@)
        },
        Some(proto::DataSourceOptions::AthenaOptions { table: t, query: q, database: db, data_source: ds }) => {
            d matches DataSourceOptions::Athena { table, query, database, data_source } && opt_view(table)
                == nonempty_opt(t@) && opt_view(query) == nonempty_opt(q@) && opt_view(database)
                == nonempty_opt(db@) && opt_view(data_source) == nonempty_opt(ds@)
        },
    }
}

/// The options message of a data source's options; the source type code
/// that goes with them is `source_type_code(source_type_of_options(d))`.
pub open spec fn options_to_rel(d: DataSourceOptions, o: Option<proto::DataSourceOptions>) -> bool {
    match d {
        DataSourceOptions::File { path, file_format: _, s3_endpoint_override } => o matches Some(
            proto::DataSourceOptions::FileOptions { file_format, uri, s3_endpoint_override: s3 },
        ) && file_format == Some(proto::FileFormat { format: Some(proto::FileFormatKind::ParquetFormat) })
            && uri@ == path@ && s3@ == or_empty(opt_view(s3_endpoint_override)),
        DataSourceOptions::BigQuery { table, query } => o matches Some(
            proto::DataSourceOptions::BigqueryOptions { table: t, query: q },
        ) && t@ == or_empty(opt_view(table)) && q@ == or_empty(opt_view(query)),
        DataSourceOptions::Redshift { table, query, schema_name, database } => o matches Some(
            proto::DataSourceOptions::RedshiftOptions { table: t, query: q, schema: sc, database: db },
        ) && t@ == or_empty(opt_view(table)) && q@ == or_empty(opt_view(query)) && sc@ == or_empty(
            opt_view(schema_name),
        ) && db@ == or_empty(opt_view(database)),
        DataSourceOptions::Snowflake { table, query, schema_name, database } => o matches Some(
            proto::DataSourceOptions::SnowflakeOptions { table: t, query: q, schema: sc, database: db },
        ) && t@ == or_empty(opt_view(table)) && q@ == or_empty(opt_view(query)) && sc@ == or_empty(
            opt_view(schema_name),
        ) && db@ == or_empty(opt_view(database)),
        DataSourceOptions::Kafka { bootstrap_servers, topic } => o matches Some(
            proto::DataSourceOptions::KafkaOptions { kafka_bootstrap_servers: b, topic: t },
        ) && b@ == bootstrap_servers@ && t@ == topic@,
        DataSourceOptions::Kinesis { region, stream_name } => o matches Some(
            proto::DataSourceOptions::KinesisOptions { region: r, stream_name: n },
        ) && r@ == region@ && n@ == stream_name@,
        DataSourceOptions::Request { schema } => o matches Some(
            proto::DataSourceOptions::RequestDataOptions { schema: s },
        ) && features_to_rel(schema@, s@),
        DataSourceOptions::Custom { class_type: _, config } => o matches Some(
            proto::DataSourceOptions::CustomOptions { configuration },
        ) && configuration@ == config@,
        DataSourceOptions::Push { batch_source: _ } => o matches Some(
            proto::DataSourceOptions::PushOptions,
        ),
        DataSourceOptions::Spark { table, query, path, file_format } => o matches Some(
            proto::DataSourceOptions::SparkOptions {
                table: t,
                query: q,
                path: pa,
                file_format: ff,
                date_partition_column_format: dp,
            },
        ) && t@ == or_empty(opt_view(table)) && q@ == or_empty(opt_view(query)) && pa@ == or_empty(
            opt_view(path),
        ) && ff@ == or_empty(opt_view(file_format)) && dp@.len() == 0,
        DataSourceOptions::Trino { table, query } => o matches Some(
            proto::DataSourceOptions::TrinoOptions { table: t, query: q },
        ) && t@ == or_empty(opt_view(table)) && q@ == or_empty(opt_view(query)),
        DataSourceOptions::Athena { table, query, database, data_source } => o matches Some(
            proto::DataSourceOptions::AthenaOptions { table: t, query: q, database: db, data_source: ds },
        ) && t@ == or_empty(opt_view(table)) && q@ == or_empty(opt_view(query)) && db@ == or_empty(
            opt_view(database),
        ) && ds@ == or_empty(opt_view(data_source)),
    }
}

/// Reads the options of a data source message.
pub fn data_source_options_from_proto(ds: &proto::DataSource) -> (r: DataSourceOptions)
    ensures
        options_from_rel(ds.options, r),
{
    match &ds.options {
        Some(proto::DataSourceOptions::FileOptions { file_format, uri, s3_endpoint_override }) => {
            let ff = match file_format {
                Some(f) => file_format_from_proto(f),
                None => file_format_from_proto(&proto::FileFormat { format: None }),
            };
            DataSourceOptions::File {
                path: uri.clone(),
                file_format: ff,
                s3_endpoint_override: opt_from_text(s3_endpoint_override),
            }
        },
        Some(proto::DataSourceOptions::BigqueryOptions { table, query }) => DataSourceOptions::BigQuery {
            table: opt_from_text(table),
            query: opt_from_text(query),
        },
        Some(proto::DataSourceOptions::RedshiftOptions { table, query, schema, database }) => {
            DataSourceOptions::Redshift {
                table: opt_from_text(table),
                query: opt_from_text(query),
                schema_name: opt_from_text(schema),
                database: opt_from_text(database),
            }
        },
        Some(proto::DataSourceOptions::SnowflakeOptions { table, query, schema, database }) => {
            DataSourceOptions::Snowflake {
                table: opt_from_text(table),
                query: opt_from_text(query),
                schema_name: opt_from_text(schema),
                database: opt_from_text(database),
            }
        },
        Some(proto::DataSourceOptions::KafkaOptions { kafka_bootstrap_servers, topic }) => {
            DataSourceOptions::Kafka {
                bootstrap_servers: kafka_bootstrap_servers.clone(),
                topic: topic.clone(),
            }
        },
        Some(proto::DataSourceOptions::KinesisOptions { region, stream_name }) => {
            DataSourceOptions::Kinesis { region: region.clone(), stream_name: stream_name.clone() }
        },
        Some(proto::DataSourceOptions::RequestDataOptions { schema }) => DataSourceOptions::Request {
            schema: features_from_proto(schema),
        },
        Some(proto::DataSourceOptions::CustomOptions { configuration }) => DataSourceOptions::Custom {
            class_type: String::new(),
            config: clone_bytes(configuration),
        },
        Some(proto::DataSourceOptions::PushOptions) => DataSourceOptions::Push { batch_source: None },
        Some(proto::DataSourceOptions::SparkOptions { table, query, path, file_format, .. }) => {
            DataSourceOptions::Spark {
                table: opt_from_text(table),
                query: opt_from_text(query),
                path: opt_from_text(path),
                file_format: opt_from_text(file_format),
            }
        },
        Some(proto::DataSourceOptions::TrinoOptions { table, query }) => DataSourceOptions::Trino {
            table: opt_from_text(table),
            query: opt_from_text(query),
        },
        Some(proto::DataSourceOptions::AthenaOptions { table, query, database, data_source }) => {
            DataSourceOptions::Athena {
                table: opt_from_text(table),
                query: opt_from_text(query),
                database: opt_from_text(database),
                data_source: opt_from_text(data_source),
            }
        },
        None => DataSourceOptions::File {
            path: String::new(),
            file_format: FileFormat::Parquet,
            s3_endpoint_override: None,
        },
    }
}

/// Writes the options message of a data source's options, with the code of
/// the source type they denote.
pub fn data_source_options_to_proto(o: &DataSourceOptions) -> (r: (i32, Option<proto::DataSourceOptions>))
    ensures
        r.0 == source_type_code(source_type_of_options(*o)),
        options_to_rel(*o, r.1),
{
    match o {
        DataSourceOptions::File { path, file_format, s3_endpoint_override } => (
            SourceType::BatchFile.to_i32(),
            Some(
                proto::DataSourceOptions::FileOptions {
                    file_format: Some(file_format_to_proto(file_format)),
                    uri: path.clone(),
                    s3_endpoint_override: text_from_opt(s3_endpoint_override),
                },
            ),
        ),
        DataSourceOptions::BigQuery { table, query } => (
            SourceType::BatchBigQuery.to_i32(),
            Some(
                proto::DataSourceOptions::BigqueryOptions {
                    table: text_from_opt(table),
                    query: text_from_opt(query),
                },
            ),
        ),
        DataSourceOptions::Redshift { table, query, schema_name, database } => (
            SourceType::BatchRedshift.to_i32(),
            Some(
                proto::DataSourceOptions::RedshiftOptions {
                    table: text_from_opt(table),
                    query: text_from_opt(query),
                    schema: text_from_opt(schema_name),
                    database: text_from_opt(database),
                },
            ),
        ),
        DataSourceOptions::Snowflake { table, query, schema_name, database } => (
            SourceType::BatchSnowflake.to_i32(),
            Some(
                proto::DataSourceOptions::SnowflakeOptions {
                    table: text_from_opt(table),
                    query: text_from_opt(query),
                    schema: text_from_opt(schema_name),
                    database: text_from_opt(database),
                },
            ),
        ),
        DataSourceOptions::Kafka { bootstrap_servers, topic } => (
            SourceType::StreamKafka.to_i32(),
            Some(
                proto::DataSourceOptions::KafkaOptions {
                    kafka_bootstrap_servers: bootstrap_servers.clone(),
                    topic: topic.clone(),
                },
            ),
        ),
        DataSourceOptions::Kinesis { region, stream_name } => (
            SourceType::StreamKinesis.to_i32(),
            Some(
                proto::DataSourceOptions::KinesisOptions {
                    region: region.clone(),
                    stream_name: stream_name.clone(),
                },
            ),
        ),
        DataSourceOptions::Request { schema } => (
            SourceType::RequestSource.to_i32(),
            Some(proto::DataSourceOptions::RequestDataOptions { schema: features_to_proto(schema) }),
        ),
        DataSourceOptions::Custom { class_type: _, config } => (
            SourceType::CustomSource.to_i32(),
            Some(proto::DataSourceOptions::CustomOptions { configuration: clone_bytes(config) }),
        ),
        DataSourceOptions::Push { batch_source: _ } => (
            SourceType::PushSource.to_i32(),
            Some(proto::DataSourceOptions::PushOptions),
        ),
        DataSourceOptions::Spark { table, query, path, file_format } => (
            SourceType::BatchSpark.to_i32(),
            Some(
                proto::DataSourceOptions::SparkOptions {
                    table: text_from_opt(table),
                    query: text_from_opt(query),
                    path: text_from_opt(path),
                    file_format: text_from_opt(file_format),
                    date_partition_column_format: String::new(),
                },
            ),
        ),
        DataSourceOptions::Trino { table, query } => (
            SourceType::BatchTrino.to_i32(),
            Some(
                proto::DataSourceOptions::TrinoOptions {
                    table: text_from_opt(table),
                    query: text_from_opt(query),
                },
            ),
        ),
        DataSourceOptions::Athena { table, query, database, data_source } => (
            SourceType::BatchAthena.to_i32(),
            Some(
                proto::DataSourceOptions::AthenaOptions {
                    table: text_from_opt(table),
                    query: text_from_opt(query),
                    database: text_from_opt(database),
                    data_source: text_from_opt(data_source),
                },
            ),
        ),
    }
}

/// Whether two optional texts are the same.
pub open spec fn same_opt(a: Option<String>, b: Option<String>) -> bool {
    opt_view(a) == opt_view(b)
}

/// Whether two sets of data source options hold the same values.
pub open spec fn same_options(a: DataSourceOptions, b: DataSourceOptions) -> bool
    decreases a,
{
    match a {
        DataSourceOptions::File { path, file_format, s3_endpoint_override } => b matches DataSourceOptions::File {
            path: p2,
            file_format: f2,
            s3_endpoint_override: s2,
        } && path@ == p2@ && file_format == f2 && same_opt(s3_endpoint_override, s2),
        DataSourceOptions::BigQuery { table, query } => b matches DataSourceOptions::BigQuery {
            table: t2,
            query: q2,
        } && same_opt(table, t2) && same_opt(query, q2),
        DataSourceOptions::Redshift { table, query, schema_name, database } => b matches DataSourceOptions::Redshift {
            table: t2,
            query: q2,
            schema_name: s2,
            database: d2,
        } && same_opt(table, t2) && same_opt(query, q2) && same_opt(schema_name, s2) && same_opt(
            database,
            d2,
        ),
        DataSourceOptions::Snowflake { table, query, schema_name, database } => b matches DataSourceOptions::Snowflake {
            table: t2,
            query: q2,
            schema_name: s2,
            database: d2,
        } && same_opt(table, t2) && same_opt(query, q2) && same_opt(schema_name, s2) && same_opt(
            database,
            d2,
        ),
        DataSourceOptions::Kafka { bootstrap_servers, topic } => b matches DataSourceOptions::Kafka {
            bootstrap_servers: b2,
            topic: t2,
        } && bootstrap_servers@ == b2@ && topic@ == t2@,
        DataSourceOptions::Kinesis { region, stream_name } => b matches DataSourceOptions::Kinesis {
            region: r2,
            stream_name: n2,
        } && region@ == r2@ && stream_name@ == n2@,
        DataSourceOptions::Push { batch_source } => b matches DataSourceOptions::Push {
            batch_source: b2,
        } && match (batch_source, b2) {
            (None, None) => true,
            (Some(x), Some(y)) => same_data_source(*x, *y),
            _ => false,
        },
        DataSourceOptions::Request { schema } => b matches DataSourceOptions::Request { schema: s2 }
            && same_features(schema@, s2@),
        DataSourceOptions::Custom { class_type, config } => b matches DataSourceOptions::Custom {
            class_type: c2,
            config: g2,
        } && class_type@ == c2@ && config@ == g2@,
        DataSourceOptions::Spark { table, query, path, file_format } => b matches DataSourceOptions::Spark {
            table: t2,
            query: q2,
            path: p2,
            file_format: f2,
        } && same_opt(table, t2) && same_opt(query, q2) && same_opt(path, p2) && same_opt(
            file_format,
            f2,
        ),
        DataSourceOptions::Trino { table, query } => b matches DataSourceOptions::Trino {
            table: t2,
            query: q2,
        } && same_opt(table, t2) && same_opt(query, q2),
        DataSourceOptions::Athena { table, query, database, data_source } => b matches DataSourceOptions::Athena {
            table: t2,
            query: q2,
            database: d2,
            data_source: s2,
        } && same_opt(table, t2) && same_opt(query, q2) && same_opt(database, d2) && same_opt(
            data_source,
            s2,
        ),
    }
}

/// Whether two data sources hold the same values.
pub open spec fn same_data_source(a: DataSource, b: DataSource) -> bool
    decreases a,
{
    &&& a.name@ == b.name@
    &&& a.project@ == b.project@
    &&& a.source_type == b.source_type
    &&& same_opt(a.timestamp_field, b.timestamp_field)
    &&& same_opt(a.created_timestamp_column, b.created_timestamp_column)
    &&& a.field_mapping@ == b.field_mapping@
    &&& a.description@ == b.description@
    &&& a.tags@ == b.tags@
    &&& a.owner@ == b.owner@
    &&& same_opt(a.date_partition_column, b.date_partition_column)
    &&& same_opt(a.timestamp_field_type, b.timestamp_field_type)
    &&& same_options(a.options, b.options)
}

/// Options that a write and a read keep: optional text absent or not
/// empty, a Parquet file format, a custom source without a class type, a
/// push source without a batch source, and canonical request features.
pub open spec fn options_canonical(o: DataSourceOptions) -> bool {
    match o {
        DataSourceOptions::File { path: _, file_format, s3_endpoint_override } => file_format
            == FileFormat::Parquet && opt_text_canonical(s3_endpoint_override),
        DataSourceOptions::BigQuery { table, query } => opt_text_canonical(table) && opt_text_canonical(
            query,
        ),
        DataSourceOptions::Redshift { table, query, schema_name, database } => opt_text_canonical(table)
            && opt_text_canonical(query) && opt_text_canonical(schema_name) && opt_text_canonical(
            database,
        ),
        DataSourceOptions::Snowflake { table, query, schema_name, database } => opt_text_canonical(
            table,
        ) && opt_text_canonical(query) && opt_text_canonical(schema_name) && opt_text_canonical(
            database,
        ),
        DataSourceOptions::Kafka { .. } => true,
        DataSourceOptions::Kinesis { .. } => true,
        DataSourceOptions::Push { batch_source } => batch_source is None,
        DataSourceOptions::Request { schema } => forall|i: int|
            0 <= i < schema@.len() ==> feature_canonical(#[trigger] schema@[i]),
        DataSourceOptions::Custom { class_type, config: _ } => class_type@.len() == 0,
        DataSourceOptions::Spark { table, query, path, file_format } => opt_text_canonical(table)
            && opt_text_canonical(query) && opt_text_canonical(path) && opt_text_canonical(
            file_format,
        ),
        DataSourceOptions::Trino { table, query } => opt_text_canonical(table) && opt_text_canonical(
            query,
        ),
        DataSourceOptions::Athena { table, query, database, data_source } => opt_text_canonical(table)
            && opt_text_canonical(query) && opt_text_canonical(database) && opt_text_canonical(
            data_source,
        ),
    }
}

/// Options written and read back hold the values they had, where they are
/// canonical.
pub proof fn lemma_options_roundtrip(
    d: DataSourceOptions,
    o: Option<proto::DataSourceOptions>,
    e: DataSourceOptions,
)
    requires
        options_canonical(d),
        options_to_rel(d, o),
        options_from_rel(o, e),
    ensures
        same_options(d, e),
{
    match d {
        DataSourceOptions::Request { schema } => {
            if let Some(proto::DataSourceOptions::RequestDataOptions { schema: s }) = o {
                if let DataSourceOptions::Request { schema: s2 } = e {
                    lemma_features_roundtrip(schema@, s@, s2@);
                }
            }
        },
        DataSourceOptions::Custom { class_type, config } => {
            if let DataSourceOptions::Custom { class_type: c2, config: _ } = e {
                assert(class_type@ =~= c2@);
            }
        },
        _ => {},
    }
}

/// A data source read from its message.
pub open spec fn data_source_from_rel(p: proto::DataSource, d: DataSource) -> bool {
    &&& d.name@ == p.name@
    &&& d.project@ == p.project@
    &&& d.source_type == st_of_code(p.source_type)
    &&& opt_view(d.timestamp_field) == nonempty_opt(p.timestamp_field@)
    &&& opt_view(d.created_timestamp_column) == nonempty_opt(p.created_timestamp_column@)
    &&& d.field_mapping@ == p.field_mapping@
    &&& d.description@ == p.description@
    &&& d.tags@ == p.tags@
    &&& d.owner@ == p.owner@
    &&& opt_view(d.date_partition_column) == nonempty_opt(p.date_partition_column@)
    &&& opt_view(d.timestamp_field_type) == nonempty_opt(p.timestamp_field_type@)
    &&& options_from_rel(p.options, d.options)
}

/// A data source's message. Its source type code is the one its options
/// denote.
pub open spec fn data_source_to_rel(d: DataSource, p: proto::DataSource) -> bool {
    &&& p.name@ == d.name@
    &&& p.project@ == d.project@
    &&& p.description@ == d.description@
    &&& p.tags@ == d.tags@
    &&& p.owner@ == d.owner@
    &&& p.source_type == source_type_code(source_type_of_options(d.options))
    &&& p.field_mapping@ == d.field_mapping@
    &&& p.timestamp_field@ == or_empty(opt_view(d.timestamp_field))
    &&& p.date_partition_column@ == or_empty(opt_view(d.date_partition_column))
    &&& p.created_timestamp_column@ == or_empty(opt_view(d.created_timestamp_column))
    &&& p.timestamp_field_type@ == or_empty(opt_view(d.timestamp_field_type))
    &&& p.data_source_class_type@.len() == 0
    &&& options_to_rel(d.options, p.options)
}

/// Reads a data source from its message.
pub fn data_source_from_proto(pds: &proto::DataSource) -> (r: DataSource)
    ensures
        data_source_from_rel(*pds, r),
{
    let options = data_source_options_from_proto(pds);
    DataSource {
        name: pds.name.clone(),
        project: pds.project.clone(),
        source_type: source_type_from_proto(pds.source_type),
        timestamp_field: opt_from_text(&pds.timestamp_field),
        created_timestamp_column: opt_from_text(&pds.created_timestamp_column),
        field_mapping: pds.field_mapping.clone(),
        description: pds.description.clone(),
        tags: pds.tags.clone(),
        owner: pds.owner.clone(),
        date_partition_column: opt_from_text(&pds.date_partition_column),
        timestamp_field_type: opt_from_text(&pds.timestamp_field_type),
        options,
    }
}

/// Writes a data source's message.
pub fn data_source_to_proto(ds: &DataSource) -> (r: proto::DataSource)
    ensures
        data_source_to_rel(*ds, r),
{
    let (st, opts) = data_source_options_to_proto(&ds.options);
    proto::DataSource {
        name: ds.name.clone(),
        project: ds.project.clone(),
        description: ds.description.clone(),
        tags: ds.tags.clone(),
        owner: ds.owner.clone(),
        source_type: st,
        field_mapping: ds.field_mapping.clone(),
        timestamp_field: text_from_opt(&ds.timestamp_field),
        date_partition_column: text_from_opt(&ds.date_partition_column),
        created_timestamp_column: text_from_opt(&ds.created_timestamp_column),
        timestamp_field_type: text_from_opt(&ds.timestamp_field_type),
        data_source_class_type: String::new(),
        options: opts,
    }
}

/// A data source that a write and a read keep: its source type is the one
/// its options denote, its optional text is absent or not empty, and its
/// options are canonical.
pub open spec fn data_source_canonical(d: DataSource) -> bool {
    &&& d.source_type == source_type_of_options(d.options)
    &&& opt_text_canonical(d.timestamp_field)
    &&& opt_text_canonical(d.created_timestamp_column)
    &&& opt_text_canonical(d.date_partition_column)
    &&& opt_text_canonical(d.timestamp_field_type)
    &&& options_canonical(d.options)
}

/// A canonical data source written and read back holds the values it had.
pub proof fn lemma_data_source_roundtrip(d: DataSource, p: proto::DataSource, e: DataSource)
    requires
        data_source_canonical(d),
        data_source_to_rel(d, p),
        data_source_from_rel(p, e),
    ensures
        same_data_source(d, e),
{
    crate::types::lemma_source_type_code_roundtrip(d.source_type, source_type_code(d.source_type));
    lemma_options_roundtrip(d.options, p.options, e.options);
}

/// Optional data sources read from their messages.
pub open spec fn opt_data_source_from_rel(p: Option<proto::DataSource>, d: Option<DataSource>) -> bool {
    match (p, d) {
        (None, None) => true,
        (Some(x), Some(y)) => data_source_from_rel(x, y),
        _ => false,
    }
}

/// The messages of optional data sources.
pub open spec fn opt_data_source_to_rel(d: Option<DataSource>, p: Option<proto::DataSource>) -> bool {
    match (d, p) {
        (None, None) => true,
        (Some(x), Some(y)) => data_source_to_rel(x, y),
        _ => false,
    }
}

/// Whether two optional data sources hold the same values.
pub open spec fn same_opt_data_source(a: Option<DataSource>, b: Option<DataSource>) -> bool {
    match (a, b) {
        (None, None) => true,
        (Some(x), Some(y)) => same_data_source(x, y),
        _ => false,
    }
}

/// Reads an optional data source.
fn opt_data_source_from_proto(p: &Option<proto::DataSource>) -> (r: Option<DataSource>)
    ensures
        opt_data_source_from_rel(*p, r),
{
    match p {
        Some(x) => Some(data_source_from_proto(x)),
        None => None,
    }
}

/// Writes an optional data source.
fn opt_data_source_to_proto(d: &Option<DataSource>) -> (r: Option<proto::DataSource>)
    ensures
        opt_data_source_to_rel(*d, r),
{
    match d {
        Some(x) => Some(data_source_to_proto(x)),
        None => None,
    }
}

// ------------------------------------------------------------- time values

/// The instant a timestamp message names, where chrono accepts it.
pub open spec fn ts_to_dt_spec(ts: Option<proto::Timestamp>) -> Option<UtcDateTime> {
    match ts {
        Some(t) => if chrono_accepts(t.seconds, t.nanos as u32) {
            Some(UtcDateTime { secs: t.seconds, nanos: t.nanos as u32 })
        } else {
            None
        },
        None => None,
    }
}

/// The timestamp message of an instant.
pub open spec fn dt_to_ts_spec(dt: Option<UtcDateTime>) -> Option<proto::Timestamp> {
    match dt {
        Some(d) => Some(proto::Timestamp { seconds: d.secs, nanos: d.nanos as i32 }),
        None => None,
    }
}

/// Reads an instant from a timestamp message.
pub fn ts_to_dt(ts: &Option<proto::Timestamp>) -> (r: Option<UtcDateTime>)
    ensures
        r == ts_to_dt_spec(*ts),
{
    match ts {
        Some(t) => datetime_from_timestamp(t.seconds, t.nanos as u32),
        None => None,
    }
}

/// Writes the timestamp message of an instant.
pub fn dt_to_ts(dt: &Option<UtcDateTime>) -> (r: Option<proto::Timestamp>)
    ensures
        r == dt_to_ts_spec(*dt),
{
    match dt {
        Some(d) => Some(proto::Timestamp { seconds: d.timestamp(), nanos: d.timestamp_subsec_nanos() as i32 }),
        None => None,
    }
}

/// An instant that chrono holds: one it accepts, with fewer than two
/// billion nanoseconds.
pub open spec fn dt_canonical(d: UtcDateTime) -> bool {
    chrono_accepts(d.secs, d.nanos) && d.nanos < 2_000_000_000
}

/// An optional instant that is absent or canonical.
pub open spec fn opt_dt_canonical(d: Option<UtcDateTime>) -> bool {
    d matches Some(x) ==> dt_canonical(x)
}

/// An instant written as a timestamp and read back is the same instant.
pub proof fn lemma_timestamp_roundtrip(d: Option<UtcDateTime>)
    requires
        opt_dt_canonical(d),
    ensures
        ts_to_dt_spec(dt_to_ts_spec(d)) == d,
{
    if let Some(x) = d {
        let n = x.nanos;
        assert((n as i32) as u32 == n) by (bit_vector)
            requires
                n < 2_000_000_000u32,
        ;
    }
}

/// Whether a duration message can be read without overflow: the whole
/// seconds of its nanoseconds, carried into its seconds, still fit.
pub open spec fn dur_readable(d: Option<proto::Duration>) -> bool {
    d matches Some(x) ==> (x.seconds as u64) + (x.nanos as u32) / 1_000_000_000 <= u64::MAX
}

/// The span a duration message names, its seconds and nanoseconds read as
/// unsigned.
pub open spec fn dur_to_std_spec(d: Option<proto::Duration>) -> Option<Duration> {
    match d {
        Some(x) => Some(
            Duration {
                secs: ((x.seconds as u64) + (x.nanos as u32) / 1_000_000_000) as u64,
                nanos: ((x.nanos as u32) % 1_000_000_000) as u32,
            },
        ),
        None => None,
    }
}

/// The duration message of a span.
pub open spec fn std_to_dur_spec(d: Option<Duration>) -> Option<proto::Duration> {
    match d {
        Some(x) => Some(proto::Duration { seconds: x.secs as i64, nanos: x.nanos as i32 }),
        None => None,
    }
}

/// Reads a span from a duration message.
pub fn dur_to_std(d: &Option<proto::Duration>) -> (r: Option<Duration>)
    requires
        dur_readable(*d),
    ensures
        r == dur_to_std_spec(*d),
{
    match d {
        Some(x) => Some(Duration::new(x.seconds as u64, x.nanos as u32)),
        None => None,
    }
}

/// Writes the duration message of a span.
pub fn std_to_dur(d: &Option<Duration>) -> (r: Option<proto::Duration>)
    ensures
        r == std_to_dur_spec(*d),
{
    match d {
        Some(x) => Some(proto::Duration { seconds: x.as_secs() as i64, nanos: x.subsec_nanos() as i32 }),
        None => None,
    }
}

/// A span written as a duration message can be read back, and is the same
/// span, where its nanoseconds are fewer than a billion.
pub proof fn lemma_duration_roundtrip(d: Option<Duration>)
    requires
        d matches Some(x) ==> x.nanos < 1_000_000_000,
    ensures
        dur_readable(std_to_dur_spec(d)),
        dur_to_std_spec(std_to_dur_spec(d)) == d,
{
    if let Some(x) = d {
        let s = x.secs;
        let n = x.nanos;
        assert((s as i64) as u64 == s) by (bit_vector);
        assert((n as i32) as u32 == n) by (bit_vector)
            requires
                n < 1_000_000_000u32,
        ;
    }
}

// ---------------------------------------------------------------- entities

/// An entity read from its message: the defaults where it has no
/// specification, otherwise the specification's fields, with the join key
/// as the only join key where it is not empty.
pub open spec fn entity_from_rel(p: proto::Entity, e: Entity) -> bool {
    match p.spec {
        None => {
            &&& e.name@.len() == 0
            &&& e.project@.len() == 0
            &&& e.join_keys@.len() == 0
            &&& e.value_type == ValueType::Invalid
            &&& e.description@.len() == 0
            &&& e.tags@ == Map::<String, String>::empty()
            &&& e.owner@.len() == 0
            &&& e.created_timestamp is None
            &&& e.last_updated_timestamp is None
        },
        Some(s) => {
            &&& e.name@ == s.name@
            &&& e.project@ == s.project@
            &&& crate::strings::views(e.join_keys@) == (if s.join_key@.len() == 0 {
                Seq::empty()
            } else {
                seq![s.join_key@]
            })
            &&& e.value_type == vt_of_code(s.value_type)
            &&& e.description@ == s.description@
            &&& e.tags@ == s.tags@
            &&& e.owner@ == s.owner@
            &&& e.created_timestamp == match p.meta {
                Some(m) => ts_to_dt_spec(m.created_timestamp),
                None => None,
            }
            &&& e.last_updated_timestamp == match p.meta {
                Some(m) => ts_to_dt_spec(m.last_updated_timestamp),
                None => None,
            }
        },
    }
}

/// An entity's message: its first join key (empty where it has none) and
/// its times.
pub open spec fn entity_to_rel(e: Entity, p: proto::Entity) -> bool {
    &&& p.spec matches Some(s) && {
        &&& s.name@ == e.name@
        &&& s.project@ == e.project@
        &&& s.value_type == value_type_code(e.value_type)
        &&& s.description@ == e.description@
        &&& s.join_key@ == (if e.join_keys@.len() == 0 {
            Seq::empty()
        } else {
            e.join_keys@[0]@
        })
        &&& s.tags@ == e.tags@
        &&& s.owner@ == e.owner@
    }
    &&& p.meta == Some(
        proto::EntityMeta {
            created_timestamp: dt_to_ts_spec(e.created_timestamp),
            last_updated_timestamp: dt_to_ts_spec(e.last_updated_timestamp),
        },
    )
}

/// Reads an entity from its message.
pub fn entity_from_proto(pe: &proto::Entity) -> (r: Entity)
    ensures
        entity_from_rel(*pe, r),
{
    let spec = match &pe.spec {
        Some(s) => s,
        None => return Entity::default(),
    };
    let join_keys: Vec<String> = if spec.join_key.as_str().is_empty() {
        Vec::new()
    } else {
        let mut v: Vec<String> = Vec::new();
        v.push(spec.join_key.clone());
        v
    };
    proof {
        assert(crate::strings::views(join_keys@) =~= (if spec.join_key@.len() == 0 {
            Seq::empty()
        } else {
            seq![spec.join_key@]
        }));
    }
    let (created_timestamp, last_updated_timestamp) = match &pe.meta {
        Some(m) => (ts_to_dt(&m.created_timestamp), ts_to_dt(&m.last_updated_timestamp)),
        None => (None, None),
    };
    Entity {
        name: spec.name.clone(),
        project: spec.project.clone(),
        join_keys,
        value_type: vt_from_proto(spec.value_type),
        description: spec.description.clone(),
        tags: spec.tags.clone(),
        owner: spec.owner.clone(),
        created_timestamp,
        last_updated_timestamp,
    }
}

/// Writes an entity's message.
pub fn entity_to_proto(e: &Entity) -> (r: proto::Entity)
    ensures
        entity_to_rel(*e, r),
{
    let join_key = if e.join_keys.len() == 0 {
        String::new()
    } else {
        e.join_keys[0].clone()
    };
    proto::Entity {
        spec: Some(
            proto::EntitySpecV2 {
                name: e.name.clone(),
                project: e.project.clone(),
                value_type: vt_to_proto(e.value_type),
                description: e.description.clone(),
                join_key,
                tags: e.tags.clone(),
                owner: e.owner.clone(),
            },
        ),
        meta: Some(
            proto::EntityMeta {
                created_timestamp: dt_to_ts(&e.created_timestamp),
                last_updated_timestamp: dt_to_ts(&e.last_updated_timestamp),
            },
        ),
    }
}

/// Whether two entities hold the same values.
pub open spec fn same_entity(a: Entity, b: Entity) -> bool {
    &&& a.name@ == b.name@
    &&& a.project@ == b.project@
    &&& crate::strings::views(a.join_keys@) == crate::strings::views(b.join_keys@)
    &&& a.value_type == b.value_type
    &&& a.description@ == b.description@
    &&& a.tags@ == b.tags@
    &&& a.owner@ == b.owner@
    &&& a.created_timestamp == b.created_timestamp
    &&& a.last_updated_timestamp == b.last_updated_timestamp
}

/// An entity that a write and a read keep: at most one join key, not empty,
/// and canonical times.
pub open spec fn entity_canonical(e: Entity) -> bool {
    &&& e.join_keys@.len() <= 1
    &&& e.join_keys@.len() == 1 ==> e.join_keys@[0]@.len() > 0
    &&& opt_dt_canonical(e.created_timestamp)
    &&& opt_dt_canonical(e.last_updated_timestamp)
}

/// A canonical entity written and read back holds the values it had.
pub proof fn lemma_entity_roundtrip(e: Entity, p: proto::Entity, f: Entity)
    requires
        entity_canonical(e),
        entity_to_rel(e, p),
        entity_from_rel(p, f),
    ensures
        same_entity(e, f),
{
    crate::value_type::lemma_value_type_code_roundtrip(e.value_type);
    lemma_timestamp_roundtrip(e.created_timestamp);
    lemma_timestamp_roundtrip(e.last_updated_timestamp);
    assert(crate::strings::views(e.join_keys@) =~= crate::strings::views(f.join_keys@));
}

// ------------------------------------------------------------ intervals

/// The intervals that interval messages give: those whose start and end
/// are both readable instants, in order.
pub open spec fn intervals_from_spec(ps: Seq<proto::MaterializationInterval>) -> Seq<
    (UtcDateTime, UtcDateTime),
>
    decreases ps.len(),
{
    if ps.len() == 0 {
        Seq::empty()
    } else {
        let rest = intervals_from_spec(ps.drop_last());
        match (ts_to_dt_spec(ps.last().start_time), ts_to_dt_spec(ps.last().end_time)) {
            (Some(a), Some(b)) => rest.push((a, b)),
            _ => rest,
        }
    }
}

/// The interval messages of intervals.
pub open spec fn intervals_to_spec(is: Seq<(UtcDateTime, UtcDateTime)>) -> Seq<
    proto::MaterializationInterval,
> {
    is.map_values(
        |i: (UtcDateTime, UtcDateTime)|
            proto::MaterializationInterval {
                start_time: dt_to_ts_spec(Some(i.0)),
                end_time: dt_to_ts_spec(Some(i.1)),
            },
    )
}

/// Reads the intervals of interval messages, leaving out those with an
/// unreadable start or end.
pub fn intervals_from_proto(intervals: &Vec<proto::MaterializationInterval>) -> (r: Vec<
    (UtcDateTime, UtcDateTime),
>)
    ensures
        r@ == intervals_from_spec(intervals@),
{
    let mut out: Vec<(UtcDateTime, UtcDateTime)> = Vec::new();
    let n = intervals.len();
    let mut i: usize = 0;
    while i < n
        invariant
            n == intervals@.len(),
            i <= n,
            out@ == intervals_from_spec(intervals@.take(i as int)),
        decreases n - i,
    {
        proof {
            assert(intervals@.take(i + 1).drop_last() =~= intervals@.take(i as int));
            assert(intervals@.take(i + 1).last() == intervals@[i as int]);
        }
        let start = ts_to_dt(&intervals[i].start_time);
        let end = ts_to_dt(&intervals[i].end_time);
        match (start, end) {
            (Some(a), Some(b)) => out.push((a, b)),
            _ => {},
        }
        i = i + 1;
    }
    proof {
        assert(intervals@.take(n as int) =~= intervals@);
    }
    out
}

/// Writes the interval messages of intervals.
pub fn intervals_to_proto(intervals: &Vec<(UtcDateTime, UtcDateTime)>) -> (r: Vec<
    proto::MaterializationInterval,
>)
    ensures
        r@ == intervals_to_spec(intervals@),
{
    let mut out: Vec<proto::MaterializationInterval> = Vec::new();
    let n = intervals.len();
    let mut i: usize = 0;
    while i < n
        invariant
            n == intervals@.len(),
            i <= n,
            out@ == intervals_to_spec(intervals@.take(i as int)),
        decreases n - i,
    {
        let (a, b) = intervals[i];
        out.push(
            proto::MaterializationInterval {
                start_time: dt_to_ts(&Some(a)),
                end_time: dt_to_ts(&Some(b)),
            },
        );
        i = i + 1;
        proof {
            assert(intervals_to_spec(intervals@.take(i as int)) =~= intervals_to_spec(
                intervals@.take(i - 1),
            ).push(
                proto::MaterializationInterval {
                    start_time: dt_to_ts_spec(Some(a)),
                    end_time: dt_to_ts_spec(Some(b)),
                },
            ));
        }
    }
    proof {
        assert(intervals@.take(n as int) =~= intervals@);
    }
    out
}

/// Intervals whose instants are all canonical.
pub open spec fn intervals_canonical(is: Seq<(UtcDateTime, UtcDateTime)>) -> bool {
    forall|i: int| 0 <= i < is.len() ==> dt_canonical(#[trigger] is[i].0) && dt_canonical(is[i].1)
}

/// Canonical intervals written and read back are the same intervals.
pub proof fn lemma_intervals_roundtrip(is: Seq<(UtcDateTime, UtcDateTime)>)
    requires
        intervals_canonical(is),
    ensures
        intervals_from_spec(intervals_to_spec(is)) == is,
    decreases is.len(),
{
    if is.len() > 0 {
        let init = is.drop_last();
        assert(intervals_to_spec(is).drop_last() =~= intervals_to_spec(init));
        assert(intervals_canonical(init)) by {
            assert forall|i: int| 0 <= i < init.len() implies dt_canonical(#[trigger] init[i].0)
                && dt_canonical(init[i].1) by {
                assert(init[i] == is[i]);
            }
        }
        lemma_intervals_roundtrip(init);
        let last = is.last();
        assert(dt_canonical(is[is.len() - 1].0));
        lemma_timestamp_roundtrip(Some(last.0));
        lemma_timestamp_roundtrip(Some(last.1));
        assert(is =~= init.push(last));
    }
}

/// The feature view state with code `v`, or the unspecified state.
pub open spec fn state_of_code(v: i32) -> FeatureViewState {
    match feature_view_state_of_code(v) {
        Some(s) => s,
        None => FeatureViewState::StateUnspecified,
    }
}

/// The feature view state with code `v`, or the unspecified state.
pub fn state_from_proto(v: i32) -> (r: FeatureViewState)
    ensures
        r == state_of_code(v),
{
    match FeatureViewState::from_i32(v) {
        Some(s) => s,
        None => FeatureViewState::StateUnspecified,
    }
}

/// The code of a feature view state.
pub fn state_to_proto(s: FeatureViewState) -> (r: i32)
    ensures
        r == feature_view_state_code(s),
{
    s.to_i32()
}

// --------------------------------------------------------------- logging

/// A logging configuration read from its message; an absent destination
/// reads as an empty file destination.
pub open spec fn logging_from_rel(p: proto::LoggingConfig, l: LoggingConfig) -> bool {
    &&& l.sample_rate_bits == p.sample_rate_bits
    &&& match p.destination {
        None => l.destination matches LoggingDestination::File { path, s3_endpoint_override, partition_by }
            && path@.len() == 0 && s3_endpoint_override is None && partition_by@.len() == 0,
        Some(proto::Destination::FileDestination { path: pa, s3_endpoint_override: s3, partition_by: pb }) => {
            l.destination matches LoggingDestination::File { path, s3_endpoint_override, partition_by }
                && path@ == pa@ && opt_view(s3_endpoint_override) == nonempty_opt(s3@)
                && crate::strings::views(partition_by@) == crate::strings::views(pb@)
        },
        Some(proto::Destination::BigqueryDestination { table_ref: t }) => {
            l.destination matches LoggingDestination::BigQuery { table_ref } && table_ref@ == t@
        },
        Some(proto::Destination::RedshiftDestination { table_name: t }) => {
            l.destination matches LoggingDestination::Redshift { table_name } && table_name@ == t@
        },
        Some(proto::Destination::SnowflakeDestination { table_name: t }) => {
            l.destination matches LoggingDestination::Snowflake { table_name } && table_name@ == t@
        },
        Some(proto::Destination::AthenaDestination { table_name: t }) => {
            l.destination matches LoggingDestination::Athena { table_name } && table_name@ == t@
        },
        Some(proto::Destination::CustomDestination { kind: k, config: c }) => {
            l.destination matches LoggingDestination::Custom { kind, config } && kind@ == k@
                && crate::kv::pairs_view(config@) == crate::kv::pairs_view(c@)
        },
    }
}

/// The message of a logging configuration.
pub open spec fn logging_to_rel(l: LoggingConfig, p: proto::LoggingConfig) -> bool {
    &&& p.sample_rate_bits == l.sample_rate_bits
    &&& match l.destination {
        LoggingDestination::File { path, s3_endpoint_override, partition_by } => p.destination matches Some(
            proto::Destination::FileDestination { path: pa, s3_endpoint_override: s3, partition_by: pb },
        ) && pa@ == path@ && s3@ == or_empty(opt_view(s3_endpoint_override))
            && crate::strings::views(pb@) == crate::strings::views(partition_by@),
        LoggingDestination::BigQuery { table_ref } => p.destination matches Some(
            proto::Destination::BigqueryDestination { table_ref: t },
        ) && t@ == table_ref@,
        LoggingDestination::Redshift { table_name } => p.destination matches Some(
            proto::Destination::RedshiftDestination { table_name: t },
        ) && t@ == table_name@,
        LoggingDestination::Snowflake { table_name } => p.destination matches Some(
            proto::Destination::SnowflakeDestination { table_name: t },
        ) && t@ == table_name@,
        LoggingDestination::Athena { table_name } => p.destination matches Some(
            proto::Destination::AthenaDestination { table_name: t },
        ) && t@ == table_name@,
        LoggingDestination::Custom { kind, config } => p.destination matches Some(
            proto::Destination::CustomDestination { kind: k, config: c },
        ) && k@ == kind@ && crate::kv::pairs_view(c@) == crate::kv::pairs_view(config@),
    }
}

/// A copy of a list of (key, value) pairs.
fn clone_pairs(v: &Vec<(String, String)>) -> (r: Vec<(String, String)>)
    ensures
        crate::kv::pairs_view(r@) == crate::kv::pairs_view(v@),
{
    let mut out: Vec<(String, String)> = Vec::new();
    let n = v.len();
    let mut i: usize = 0;
    while i < n
        invariant
            n == v@.len(),
            i <= n,
            crate::kv::pairs_view(out@) == crate::kv::pairs_view(v@).take(i as int),
        decreases n - i,
    {
        let ghost before = out@;
        out.push((v[i].0.clone(), v[i].1.clone()));
        i = i + 1;
        proof {
            assert(crate::kv::pairs_view(out@) =~= crate::kv::pairs_view(before).push(
                (v@[i - 1].0@, v@[i - 1].1@),
            ));
            assert(crate::kv::pairs_view(v@).take(i as int) =~= crate::kv::pairs_view(v@).take(
                i - 1,
            ).push((v@[i - 1].0@, v@[i - 1].1@)));
        }
    }
    proof {
        assert(crate::kv::pairs_view(v@).take(n as int) =~= crate::kv::pairs_view(v@));
    }
    out
}

/// Reads a logging configuration from its message.
pub fn logging_from_proto(lc: &proto::LoggingConfig) -> (r: LoggingConfig)
    ensures
        logging_from_rel(*lc, r),
{
    let destination = match &lc.destination {
        Some(proto::Destination::FileDestination { path, s3_endpoint_override, partition_by }) => {
            LoggingDestination::File {
                path: path.clone(),
                s3_endpoint_override: opt_from_text(s3_endpoint_override),
                partition_by: crate::strings::clone_strings(partition_by),
            }
        },
        Some(proto::Destination::BigqueryDestination { table_ref }) => LoggingDestination::BigQuery {
            table_ref: table_ref.clone(),
        },
        Some(proto::Destination::RedshiftDestination { table_name }) => LoggingDestination::Redshift {
            table_name: table_name.clone(),
        },
        Some(proto::Destination::SnowflakeDestination { table_name }) => LoggingDestination::Snowflake {
            table_name: table_name.clone(),
        },
        Some(proto::Destination::AthenaDestination { table_name }) => LoggingDestination::Athena {
            table_name: table_name.clone(),
        },
        Some(proto::Destination::CustomDestination { kind, config }) => LoggingDestination::Custom {
            kind: kind.clone(),
            config: clone_pairs(config),
        },
        None => LoggingDestination::File {
            path: String::new(),
            s3_endpoint_override: None,
            partition_by: Vec::new(),
        },
    };
    LoggingConfig { sample_rate_bits: lc.sample_rate_bits, destination }
}

/// Writes the message of a logging configuration.
pub fn logging_to_proto(lc: &LoggingConfig) -> (r: proto::LoggingConfig)
    ensures
        logging_to_rel(*lc, r),
{
    let destination = match &lc.destination {
        LoggingDestination::File { path, s3_endpoint_override, partition_by } => Some(
            proto::Destination::FileDestination {
                path: path.clone(),
                s3_endpoint_override: text_from_opt(s3_endpoint_override),
                partition_by: crate::strings::clone_strings(partition_by),
            },
        ),
        LoggingDestination::BigQuery { table_ref } => Some(
            proto::Destination::BigqueryDestination { table_ref: table_ref.clone() },
        ),
        LoggingDestination::Redshift { table_name } => Some(
            proto::Destination::RedshiftDestination { table_name: table_name.clone() },
        ),
        LoggingDestination::Snowflake { table_name } => Some(
            proto::Destination::SnowflakeDestination { table_name: table_name.clone() },
        ),
        LoggingDestination::Athena { table_name } => Some(
            proto::Destination::AthenaDestination { table_name: table_name.clone() },
        ),
        LoggingDestination::Custom { kind, config } => Some(
            proto::Destination::CustomDestination { kind: kind.clone(), config: clone_pairs(config) },
        ),
    };
    proto::LoggingConfig { sample_rate_bits: lc.sample_rate_bits, destination }
}

// ------------------------------------------------------------ projections

/// A projection read from its message.
pub open spec fn projection_from_rel(p: proto::FeatureViewProjection, q: FeatureViewProjection) -> bool {
    &&& q.feature_view_name@ == p.feature_view_name@
    &&& opt_view(q.feature_view_name_alias) == nonempty_opt(p.feature_view_name_alias@)
    &&& features_from_rel(p.feature_columns@, q.feature_columns@)
    &&& q.join_key_map@ == p.join_key_map@
    &&& opt_view(q.timestamp_field) == nonempty_opt(p.timestamp_field@)
    &&& opt_view(q.date_partition_column) == nonempty_opt(p.date_partition_column@)
    &&& opt_view(q.created_timestamp_column) == nonempty_opt(p.created_timestamp_column@)
    &&& opt_data_source_from_rel(p.batch_source, q.batch_source)
    &&& opt_data_source_from_rel(p.stream_source, q.stream_source)
    &&& q.view_type@ == p.view_type@
}

/// The message of a projection.
pub open spec fn projection_to_rel(q: FeatureViewProjection, p: proto::FeatureViewProjection) -> bool {
    &&& p.feature_view_name@ == q.feature_view_name@
    &&& p.feature_view_name_alias@ == or_empty(opt_view(q.feature_view_name_alias))
    &&& features_to_rel(q.feature_columns@, p.feature_columns@)
    &&& p.join_key_map@ == q.join_key_map@
    &&& p.timestamp_field@ == or_empty(opt_view(q.timestamp_field))
    &&& p.date_partition_column@ == or_empty(opt_view(q.date_partition_column))
    &&& p.created_timestamp_column@ == or_empty(opt_view(q.created_timestamp_column))
    &&& opt_data_source_to_rel(q.batch_source, p.batch_source)
    &&& opt_data_source_to_rel(q.stream_source, p.stream_source)
    &&& p.view_type@ == q.view_type@
}

/// Reads a projection from its message.
pub fn projection_from_proto(pp: &proto::FeatureViewProjection) -> (r: FeatureViewProjection)
    ensures
        projection_from_rel(*pp, r),
{
    FeatureViewProjection {
        feature_view_name: pp.feature_view_name.clone(),
        feature_view_name_alias: opt_from_text(&pp.feature_view_name_alias),
        feature_columns: features_from_proto(&pp.feature_columns),
        join_key_map: pp.join_key_map.clone(),
        timestamp_field: opt_from_text(&pp.timestamp_field),
        date_partition_column: opt_from_text(&pp.date_partition_column),
        created_timestamp_column: opt_from_text(&pp.created_timestamp_column),
        batch_source: opt_data_source_from_proto(&pp.batch_source),
        stream_source: opt_data_source_from_proto(&pp.stream_source),
        view_type: pp.view_type.clone(),
    }
}

/// Writes the message of a projection.
pub fn projection_to_proto(p: &FeatureViewProjection) -> (r: proto::FeatureViewProjection)
    ensures
        projection_to_rel(*p, r),
{
    proto::FeatureViewProjection {
        feature_view_name: p.feature_view_name.clone(),
        feature_view_name_alias: text_from_opt(&p.feature_view_name_alias),
        feature_columns: features_to_proto(&p.feature_columns),
        join_key_map: p.join_key_map.clone(),
        timestamp_field: text_from_opt(&p.timestamp_field),
        date_partition_column: text_from_opt(&p.date_partition_column),
        created_timestamp_column: text_from_opt(&p.created_timestamp_column),
        batch_source: opt_data_source_to_proto(&p.batch_source),
        stream_source: opt_data_source_to_proto(&p.stream_source),
        view_type: p.view_type.clone(),
    }
}

/// Projections read from their messages, one for one.
pub open spec fn projections_from_rel(ps: Seq<proto::FeatureViewProjection>, qs: Seq<FeatureViewProjection>) -> bool {
    ps.len() == qs.len() && forall|i: int| 0 <= i < ps.len() ==> projection_from_rel(#[trigger] ps[i], qs[i])
}

/// The messages of projections, one for one.
pub open spec fn projections_to_rel(qs: Seq<FeatureViewProjection>, ps: Seq<proto::FeatureViewProjection>) -> bool {
    ps.len() == qs.len() && forall|i: int| 0 <= i < qs.len() ==> projection_to_rel(#[trigger] qs[i], ps[i])
}

/// Reads projections from their messages.
pub fn projections_from_proto(ps: &Vec<proto::FeatureViewProjection>) -> (r: Vec<FeatureViewProjection>)
    ensures
        projections_from_rel(ps@, r@),
{
    let mut out: Vec<FeatureViewProjection> = Vec::new();
    let n = ps.len();
    let mut i: usize = 0;
    while i < n
        invariant
            n == ps@.len(),
            i <= n,
            out@.len() == i,
            forall|j: int| 0 <= j < i ==> projection_from_rel(#[trigger] ps@[j], out@[j]),
        decreases n - i,
    {
        out.push(projection_from_proto(&ps[i]));
        i = i + 1;
    }
    out
}

/// Writes the messages of projections.
pub fn projections_to_proto(qs: &Vec<FeatureViewProjection>) -> (r: Vec<proto::FeatureViewProjection>)
    ensures
        projections_to_rel(qs@, r@),
{
    let mut out: Vec<proto::FeatureViewProjection> = Vec::new();
    let n = qs.len();
    let mut i: usize = 0;
    while i < n
        invariant
            n == qs@.len(),
            i <= n,
            out@.len() == i,
            forall|j: int| 0 <= j < i ==> projection_to_rel(#[trigger] qs@[j], out@[j]),
        decreases n - i,
    {
        out.push(projection_to_proto(&qs[i]));
        i = i + 1;
    }
    out
}

// ---------------------------------------------------------- feature views

/// Whether the durations of a feature view message can be read.
pub open spec fn feature_view_readable(p: proto::FeatureView) -> bool {
    p.spec matches Some(s) ==> dur_readable(s.ttl)
}

/// A feature view read from its message. Without a specification it is
/// empty, online, not offline, at version `latest`; without metadata it has
/// no intervals, no times and the unspecified state.
pub open spec fn feature_view_from_rel(p: proto::FeatureView, f: FeatureView) -> bool {
    &&& match p.spec {
        None => {
            &&& f.name@.len() == 0
            &&& f.project@.len() == 0
            &&& f.entities@.len() == 0
            &&& f.features@.len() == 0
            &&& f.tags@ == Map::<String, String>::empty()
            &&& f.ttl is None
            &&& f.batch_source is None
            &&& f.stream_source is None
            &&& f.online
            &&& !f.offline
            &&& f.description@.len() == 0
            &&& f.owner@.len() == 0
            &&& f.org@.len() == 0
            &&& f.mode is None
            &&& !f.enable_validation
            &&& f.version@ == "latest"@
            &&& !f.disabled
            &&& f.entity_columns@.len() == 0
        },
        Some(s) => {
            &&& f.name@ == s.name@
            &&& f.project@ == s.project@
            &&& crate::strings::views(f.entities@) == crate::strings::views(s.entities@)
            &&& features_from_rel(s.features@, f.features@)
            &&& f.tags@ == s.tags@
            &&& f.ttl == dur_to_std_spec(s.ttl)
            &&& opt_data_source_from_rel(s.batch_source, f.batch_source)
            &&& opt_data_source_from_rel(s.stream_source, f.stream_source)
            &&& f.online == s.online
            &&& f.offline == s.offline
            &&& f.description@ == s.description@
            &&& f.owner@ == s.owner@
            &&& f.org@ == s.org@
            &&& opt_view(f.mode) == nonempty_opt(s.mode@)
            &&& f.enable_validation == s.enable_validation
            &&& f.version@ == s.version@
            &&& f.disabled == s.disabled
            &&& features_from_rel(s.entity_columns@, f.entity_columns@)
        },
    }
    &&& match p.meta {
        None => {
            &&& f.materialization_intervals@.len() == 0
            &&& f.created_timestamp is None
            &&& f.last_updated_timestamp is None
            &&& f.state == FeatureViewState::StateUnspecified
        },
        Some(m) => {
            &&& f.materialization_intervals@ == intervals_from_spec(m.materialization_intervals@)
            &&& f.created_timestamp == ts_to_dt_spec(m.created_timestamp)
            &&& f.last_updated_timestamp == ts_to_dt_spec(m.last_updated_timestamp)
            &&& f.state == state_of_code(m.state)
        },
    }
}

/// The message of a feature view: its specification and its metadata, at
/// version number 1.
pub open spec fn feature_view_to_rel(f: FeatureView, p: proto::FeatureView) -> bool {
    &&& p.spec matches Some(s) && {
        &&& s.name@ == f.name@
        &&& s.project@ == f.project@
        &&& crate::strings::views(s.entities@) == crate::strings::views(f.entities@)
        &&& features_to_rel(f.features@, s.features@)
        &&& s.tags@ == f.tags@
        &&& s.ttl == std_to_dur_spec(f.ttl)
        &&& opt_data_source_to_rel(f.batch_source, s.batch_source)
        &&& s.online == f.online
        &&& opt_data_source_to_rel(f.stream_source, s.stream_source)
        &&& s.description@ == f.description@
        &&& s.owner@ == f.owner@
        &&& features_to_rel(f.entity_columns@, s.entity_columns@)
        &&& s.offline == f.offline
        &&& s.mode@ == or_empty(opt_view(f.mode))
        &&& s.enable_validation == f.enable_validation
        &&& s.version@ == f.version@
        &&& s.org@ == f.org@
        &&& s.disabled == f.disabled
    }
    &&& p.meta matches Some(m) && {
        &&& m.created_timestamp == dt_to_ts_spec(f.created_timestamp)
        &&& m.last_updated_timestamp == dt_to_ts_spec(f.last_updated_timestamp)
        &&& m.materialization_intervals@ == intervals_to_spec(f.materialization_intervals@)
        &&& m.current_version_number == 1
        &&& m.version_id@.len() == 0
        &&& m.state == feature_view_state_code(f.state)
    }
}

/// Reads a feature view from its message.
pub fn feature_view_from_proto(pfv: &proto::FeatureView) -> (r: FeatureView)
    requires
        feature_view_readable(*pfv),
    ensures
        feature_view_from_rel(*pfv, r),
{
    let mut fv = match &pfv.spec {
        Some(s) => FeatureView {
            name: s.name.clone(),
            project: s.project.clone(),
            entities: crate::strings::clone_strings(&s.entities),
            features: features_from_proto(&s.features),
            tags: s.tags.clone(),
            ttl: dur_to_std(&s.ttl),
            batch_source: opt_data_source_from_proto(&s.batch_source),
            stream_source: opt_data_source_from_proto(&s.stream_source),
            online: s.online,
            offline: s.offline,
            description: s.description.clone(),
            owner: s.owner.clone(),
            org: s.org.clone(),
            mode: opt_from_text(&s.mode),
            enable_validation: s.enable_validation,
            version: s.version.clone(),
            disabled: s.disabled,
            entity_columns: features_from_proto(&s.entity_columns),
            materialization_intervals: Vec::new(),
            created_timestamp: None,
            last_updated_timestamp: None,
            state: FeatureViewState::StateUnspecified,
        },
        None => FeatureView::new(""),
    };
    proof {
        reveal_strlit("");
    }
    match &pfv.meta {
        Some(m) => {
            fv.materialization_intervals = intervals_from_proto(&m.materialization_intervals);
            fv.created_timestamp = ts_to_dt(&m.created_timestamp);
            fv.last_updated_timestamp = ts_to_dt(&m.last_updated_timestamp);
            fv.state = state_from_proto(m.state);
        },
        None => {},
    }
    fv
}

/// Writes the message of a feature view.
pub fn feature_view_to_proto(fv: &FeatureView) -> (r: proto::FeatureView)
    ensures
        feature_view_to_rel(*fv, r),
{
    proto::FeatureView {
        spec: Some(
            proto::FeatureViewSpec {
                name: fv.name.clone(),
                project: fv.project.clone(),
                entities: crate::strings::clone_strings(&fv.entities),
                features: features_to_proto(&fv.features),
                tags: fv.tags.clone(),
                ttl: std_to_dur(&fv.ttl),
                batch_source: opt_data_source_to_proto(&fv.batch_source),
                online: fv.online,
                stream_source: opt_data_source_to_proto(&fv.stream_source),
                description: fv.description.clone(),
                owner: fv.owner.clone(),
                entity_columns: features_to_proto(&fv.entity_columns),
                offline: fv.offline,
                mode: text_from_opt(&fv.mode),
                enable_validation: fv.enable_validation,
                version: fv.version.clone(),
                org: fv.org.clone(),
                disabled: fv.disabled,
            },
        ),
        meta: Some(
            proto::FeatureViewMeta {
                created_timestamp: dt_to_ts(&fv.created_timestamp),
                last_updated_timestamp: dt_to_ts(&fv.last_updated_timestamp),
                materialization_intervals: intervals_to_proto(&fv.materialization_intervals),
                current_version_number: 1,
                version_id: String::new(),
                state: state_to_proto(fv.state),
            },
        ),
    }
}

/// Whether two projections hold the same values.
pub open spec fn same_projection(a: FeatureViewProjection, b: FeatureViewProjection) -> bool {
    &&& a.feature_view_name@ == b.feature_view_name@
    &&& same_opt(a.feature_view_name_alias, b.feature_view_name_alias)
    &&& same_features(a.feature_columns@, b.feature_columns@)
    &&& a.join_key_map@ == b.join_key_map@
    &&& same_opt(a.timestamp_field, b.timestamp_field)
    &&& same_opt(a.date_partition_column, b.date_partition_column)
    &&& same_opt(a.created_timestamp_column, b.created_timestamp_column)
    &&& same_opt_data_source(a.batch_source, b.batch_source)
    &&& same_opt_data_source(a.stream_source, b.stream_source)
    &&& a.view_type@ == b.view_type@
}

/// Features that are all canonical.
pub open spec fn features_canonical(fs: Seq<Feature>) -> bool {
    forall|i: int| 0 <= i < fs.len() ==> feature_canonical(#[trigger] fs[i])
}

/// An optional data source that is absent or canonical.
pub open spec fn opt_data_source_canonical(d: Option<DataSource>) -> bool {
    d matches Some(x) ==> data_source_canonical(x)
}

/// A projection that a write and a read keep.
pub open spec fn projection_canonical(q: FeatureViewProjection) -> bool {
    &&& opt_text_canonical(q.feature_view_name_alias)
    &&& features_canonical(q.feature_columns@)
    &&& opt_text_canonical(q.timestamp_field)
    &&& opt_text_canonical(q.date_partition_column)
    &&& opt_text_canonical(q.created_timestamp_column)
    &&& opt_data_source_canonical(q.batch_source)
    &&& opt_data_source_canonical(q.stream_source)
}

/// Optional data sources written and read back hold the values they had.
pub proof fn lemma_opt_data_source_roundtrip(
    d: Option<DataSource>,
    p: Option<proto::DataSource>,
    e: Option<DataSource>,
)
    requires
        opt_data_source_canonical(d),
        opt_data_source_to_rel(d, p),
        opt_data_source_from_rel(p, e),
    ensures
        same_opt_data_source(d, e),
{
    if let (Some(x), Some(y), Some(z)) = (d, p, e) {
        lemma_data_source_roundtrip(x, y, z);
    }
}

/// A canonical projection written and read back holds the values it had.
pub proof fn lemma_projection_roundtrip(
    q: FeatureViewProjection,
    p: proto::FeatureViewProjection,
    r: FeatureViewProjection,
)
    requires
        projection_canonical(q),
        projection_to_rel(q, p),
        projection_from_rel(p, r),
    ensures
        same_projection(q, r),
{
    lemma_features_roundtrip(q.feature_columns@, p.feature_columns@, r.feature_columns@);
    lemma_opt_data_source_roundtrip(q.batch_source, p.batch_source, r.batch_source);
    lemma_opt_data_source_roundtrip(q.stream_source, p.stream_source, r.stream_source);
}

/// Whether two feature views hold the same values.
pub open spec fn same_feature_view(a: FeatureView, b: FeatureView) -> bool {
    &&& a.name@ == b.name@
    &&& a.project@ == b.project@
    &&& crate::strings::views(a.entities@) == crate::strings::views(b.entities@)
    &&& same_features(a.features@, b.features@)
    &&& a.tags@ == b.tags@
    &&& a.ttl == b.ttl
    &&& same_opt_data_source(a.batch_source, b.batch_source)
    &&& same_opt_data_source(a.stream_source, b.stream_source)
    &&& a.online == b.online
    &&& a.offline == b.offline
    &&& a.description@ == b.description@
    &&& a.owner@ == b.owner@
    &&& a.org@ == b.org@
    &&& same_opt(a.mode, b.mode)
    &&& a.enable_validation == b.enable_validation
    &&& a.version@ == b.version@
    &&& a.disabled == b.disabled
    &&& same_features(a.entity_columns@, b.entity_columns@)
    &&& a.materialization_intervals@ == b.materialization_intervals@
    &&& a.created_timestamp == b.created_timestamp
    &&& a.last_updated_timestamp == b.last_updated_timestamp
    &&& a.state == b.state
}

/// A feature view that a write and a read keep: canonical features, data
/// sources, times and intervals, a mode that is absent or not empty, and a
/// time to live under a billion nanoseconds.
pub open spec fn feature_view_canonical(f: FeatureView) -> bool {
    &&& features_canonical(f.features@)
    &&& features_canonical(f.entity_columns@)
    &&& opt_data_source_canonical(f.batch_source)
    &&& opt_data_source_canonical(f.stream_source)
    &&& opt_text_canonical(f.mode)
    &&& f.ttl matches Some(t) ==> t.nanos < 1_000_000_000
    &&& intervals_canonical(f.materialization_intervals@)
    &&& opt_dt_canonical(f.created_timestamp)
    &&& opt_dt_canonical(f.last_updated_timestamp)
}

/// A feature view's message can always be read back.
pub proof fn lemma_feature_view_message_readable(f: FeatureView, p: proto::FeatureView)
    requires
        f.ttl matches Some(t) ==> t.nanos < 1_000_000_000,
        feature_view_to_rel(f, p),
    ensures
        feature_view_readable(p),
{
    lemma_duration_roundtrip(f.ttl);
}

/// A canonical feature view written and read back holds the values it had.
pub proof fn lemma_feature_view_roundtrip(f: FeatureView, p: proto::FeatureView, g: FeatureView)
    requires
        feature_view_canonical(f),
        feature_view_to_rel(f, p),
        feature_view_from_rel(p, g),
    ensures
        same_feature_view(f, g),
{
    let s = p.spec->0;
    let m = p.meta->0;
    lemma_features_roundtrip(f.features@, s.features@, g.features@);
    lemma_features_roundtrip(f.entity_columns@, s.entity_columns@, g.entity_columns@);
    lemma_opt_data_source_roundtrip(f.batch_source, s.batch_source, g.batch_source);
    lemma_opt_data_source_roundtrip(f.stream_source, s.stream_source, g.stream_source);
    lemma_duration_roundtrip(f.ttl);
    lemma_intervals_roundtrip(f.materialization_intervals@);
    lemma_timestamp_roundtrip(f.created_timestamp);
    lemma_timestamp_roundtrip(f.last_updated_timestamp);
    crate::types::lemma_feature_view_state_code_roundtrip(f.state, m.state);
}

// --------------------------------------------------- on-demand feature views

/// Whether an on-demand source message can be read.
pub open spec fn on_demand_source_readable(p: proto::OnDemandSource) -> bool {
    p.source matches Some(proto::OnDemandSourceKind::FeatureView(fv)) ==> feature_view_readable(fv)
}

/// The request source `unknown` with no schema and every other field empty.
pub open spec fn unknown_request_source(d: DataSource) -> bool {
    &&& d.name@ == "unknown"@
    &&& d.project@.len() == 0
    &&& d.source_type == SourceType::RequestSource
    &&& d.timestamp_field is None
    &&& d.created_timestamp_column is None
    &&& d.field_mapping@ == Map::<String, String>::empty()
    &&& d.description@.len() == 0
    &&& d.tags@ == Map::<String, String>::empty()
    &&& d.owner@.len() == 0
    &&& d.date_partition_column is None
    &&& d.timestamp_field_type is None
    &&& (d.options matches DataSourceOptions::Request { schema } && schema@.len() == 0)
}

/// An on-demand source read from its message; an absent source reads as the
/// request source `unknown` with no schema.
pub open spec fn on_demand_source_from_rel(p: proto::OnDemandSource, o: OnDemandSource) -> bool {
    match p.source {
        Some(proto::OnDemandSourceKind::FeatureView(fv)) => o matches OnDemandSource::FeatureView(f)
            && feature_view_from_rel(fv, f),
        Some(proto::OnDemandSourceKind::FeatureViewProjection(pp)) => o matches OnDemandSource::FeatureViewProjection(
            q,
        ) && projection_from_rel(pp, q),
        Some(proto::OnDemandSourceKind::RequestDataSource(ds)) => o matches OnDemandSource::RequestDataSource(
            d,
        ) && data_source_from_rel(ds, d),
        None => o matches OnDemandSource::RequestDataSource(d) && unknown_request_source(d),
    }
}

/// The message of an on-demand source.
pub open spec fn on_demand_source_to_rel(o: OnDemandSource, p: proto::OnDemandSource) -> bool {
    match o {
        OnDemandSource::FeatureView(f) => p.source matches Some(
            proto::OnDemandSourceKind::FeatureView(fv),
        ) && feature_view_to_rel(f, fv),
        OnDemandSource::FeatureViewProjection(q) => p.source matches Some(
            proto::OnDemandSourceKind::FeatureViewProjection(pp),
        ) && projection_to_rel(q, pp),
        OnDemandSource::RequestDataSource(d) => p.source matches Some(
            proto::OnDemandSourceKind::RequestDataSource(ds),
        ) && data_source_to_rel(d, ds),
    }
}

/// Reads an on-demand source from its message.
pub fn on_demand_source_from_proto(s: &proto::OnDemandSource) -> (r: OnDemandSource)
    requires
        on_demand_source_readable(*s),
    ensures
        on_demand_source_from_rel(*s, r),
{
    match &s.source {
        Some(proto::OnDemandSourceKind::FeatureView(fv)) => OnDemandSource::FeatureView(
            feature_view_from_proto(fv),
        ),
        Some(proto::OnDemandSourceKind::FeatureViewProjection(p)) => OnDemandSource::FeatureViewProjection(
            projection_from_proto(p),
        ),
        Some(proto::OnDemandSourceKind::RequestDataSource(ds)) => OnDemandSource::RequestDataSource(
            data_source_from_proto(ds),
        ),
        None => {
            let d = DataSource::new("unknown", DataSourceOptions::Request { schema: Vec::new() });
            OnDemandSource::RequestDataSource(d)
        },
    }
}

/// Writes the message of an on-demand source.
pub fn on_demand_source_to_proto(s: &OnDemandSource) -> (r: proto::OnDemandSource)
    ensures
        on_demand_source_to_rel(*s, r),
{
    match s {
        OnDemandSource::FeatureView(fv) => proto::OnDemandSource {
            source: Some(proto::OnDemandSourceKind::FeatureView(feature_view_to_proto(fv))),
        },
        OnDemandSource::FeatureViewProjection(p) => proto::OnDemandSource {
            source: Some(proto::OnDemandSourceKind::FeatureViewProjection(projection_to_proto(p))),
        },
        OnDemandSource::RequestDataSource(ds) => proto::OnDemandSource {
            source: Some(proto::OnDemandSourceKind::RequestDataSource(data_source_to_proto(ds))),
        },
    }
}

/// The transformation a transformation message gives, if it names one.
pub open spec fn transformation_from_rel(
    p: Option<proto::FeatureTransformationV2>,
    t: Option<FeatureTransformation>,
) -> bool {
    match p {
        None => t is None,
        Some(ft) => match ft.transformation {
            None => t is None,
            Some(proto::Transformation::UserDefinedFunction(u)) => t matches Some(x) && x.substrait_plan
                is None && (x.udf matches Some(v) && v.name@ == u.name@ && v.body@ == u.body@
                && v.body_text@ == u.body_text@ && v.mode@ == u.mode@),
            Some(proto::Transformation::SubstraitTransformation { substrait_plan, ibis_function: _ }) => t matches Some(
                x,
            ) && x.udf is None && (x.substrait_plan matches Some(plan) && plan@ == substrait_plan@),
        },
    }
}

/// The message of a transformation: its function where it has one, else
/// its plan, else none.
pub open spec fn transformation_to_rel(
    t: Option<FeatureTransformation>,
    p: Option<proto::FeatureTransformationV2>,
) -> bool {
    match t {
        None => p is None,
        Some(x) => match (x.udf, x.substrait_plan) {
            (Some(u), _) => p matches Some(ft) && ft.transformation matches Some(
                proto::Transformation::UserDefinedFunction(v),
            ) && v.name@ == u.name@ && v.body@ == u.body@ && v.body_text@ == u.body_text@ && v.mode@
                == u.mode@,
            (None, Some(plan)) => p matches Some(ft) && ft.transformation matches Some(
                proto::Transformation::SubstraitTransformation { substrait_plan, ibis_function },
            ) && substrait_plan@ == plan@ && ibis_function@.len() == 0,
            (None, None) => p is None,
        },
    }
}

/// Reads the transformation of a transformation message.
fn transformation_from_proto(p: &Option<proto::FeatureTransformationV2>) -> (r: Option<FeatureTransformation>)
    ensures
        transformation_from_rel(*p, r),
{
    match p {
        None => None,
        Some(ft) => match &ft.transformation {
            None => None,
            Some(proto::Transformation::UserDefinedFunction(u)) => Some(
                FeatureTransformation {
                    udf: Some(
                        UserDefinedFunction {
                            name: u.name.clone(),
                            body: clone_bytes(&u.body),
                            body_text: u.body_text.clone(),
                            mode: u.mode.clone(),
                        },
                    ),
                    substrait_plan: None,
                },
            ),
            Some(proto::Transformation::SubstraitTransformation { substrait_plan, .. }) => Some(
                FeatureTransformation { udf: None, substrait_plan: Some(clone_bytes(substrait_plan)) },
            ),
        },
    }
}

/// Writes the message of a transformation.
fn transformation_to_proto(t: &Option<FeatureTransformation>) -> (r: Option<proto::FeatureTransformationV2>)
    ensures
        transformation_to_rel(*t, r),
{
    match t {
        None => None,
        Some(x) => match (&x.udf, &x.substrait_plan) {
            (Some(u), _) => Some(
                proto::FeatureTransformationV2 {
                    transformation: Some(
                        proto::Transformation::UserDefinedFunction(
                            proto::UserDefinedFunctionV2 {
                                name: u.name.clone(),
                                body: clone_bytes(&u.body),
                                body_text: u.body_text.clone(),
                                mode: u.mode.clone(),
                            },
                        ),
                    ),
                },
            ),
            (None, Some(plan)) => Some(
                proto::FeatureTransformationV2 {
                    transformation: Some(
                        proto::Transformation::SubstraitTransformation {
                            substrait_plan: clone_bytes(plan),
                            ibis_function: Vec::new(),
                        },
                    ),
                },
            ),
            (None, None) => None,
        },
    }
}

/// Whether the sources of an on-demand feature view message can be read.
pub open spec fn odfv_readable(p: proto::OnDemandFeatureView) -> bool {
    p.spec matches Some(s) ==> forall|i: int|
        0 <= i < s.sources@.len() ==> on_demand_source_readable(#[trigger] s.sources@[i].1)
}

/// Named on-demand sources read from their messages, one for one.
pub open spec fn sources_from_rel(ps: Seq<(String, proto::OnDemandSource)>, os: Seq<(String, OnDemandSource)>) -> bool {
    ps.len() == os.len() && forall|i: int|
        0 <= i < ps.len() ==> (#[trigger] os[i]).0@ == ps[i].0@ && on_demand_source_from_rel(ps[i].1, os[i].1)
}

/// The messages of named on-demand sources, one for one.
pub open spec fn sources_to_rel(os: Seq<(String, OnDemandSource)>, ps: Seq<(String, proto::OnDemandSource)>) -> bool {
    ps.len() == os.len() && forall|i: int|
        0 <= i < os.len() ==> (#[trigger] ps[i]).0@ == os[i].0@ && on_demand_source_to_rel(os[i].1, ps[i].1)
}

/// An on-demand feature view read from its message: the defaults without a
/// specification; otherwise its fields, with version `latest` where the
/// message gives none.
pub open spec fn odfv_from_rel(p: proto::OnDemandFeatureView, o: OnDemandFeatureView) -> bool {
    match p.spec {
        None => {
            &&& o.name@.len() == 0
            &&& o.project@.len() == 0
            &&& o.features@.len() == 0
            &&& o.sources@.len() == 0
            &&& o.feature_transformation is None
            &&& o.description@.len() == 0
            &&& o.tags@ == Map::<String, String>::empty()
            &&& o.owner@.len() == 0
            &&& o.mode@.len() == 0
            &&& !o.write_to_online_store
            &&& o.entities@.len() == 0
            &&& o.entity_columns@.len() == 0
            &&& !o.singleton
            &&& o.version@.len() == 0
            &&& !o.disabled
        },
        Some(s) => {
            &&& o.name@ == s.name@
            &&& o.project@ == s.project@
            &&& features_from_rel(s.features@, o.features@)
            &&& sources_from_rel(s.sources@, o.sources@)
            &&& transformation_from_rel(s.feature_transformation, o.feature_transformation)
            &&& o.description@ == s.description@
            &&& o.tags@ == s.tags@
            &&& o.owner@ == s.owner@
            &&& o.mode@ == s.mode@
            &&& o.write_to_online_store == s.write_to_online_store
            &&& crate::strings::views(o.entities@) == crate::strings::views(s.entities@)
            &&& features_from_rel(s.entity_columns@, o.entity_columns@)
            &&& o.singleton == s.singleton
            &&& o.version@ == (if s.version@.len() == 0 {
                "latest"@
            } else {
                s.version@
            })
            &&& o.disabled == s.disabled
        },
    }
}

/// The message of an on-demand feature view: its specification with no
/// aggregations and no organization, and metadata with no times, version
/// number 1 and state 0.
pub open spec fn odfv_to_rel(o: OnDemandFeatureView, p: proto::OnDemandFeatureView) -> bool {
    &&& p.spec matches Some(s) && {
        &&& s.name@ == o.name@
        &&& s.project@ == o.project@
        &&& features_to_rel(o.features@, s.features@)
        &&& sources_to_rel(o.sources@, s.sources@)
        &&& transformation_to_rel(o.feature_transformation, s.feature_transformation)
        &&& s.description@ == o.description@
        &&& s.tags@ == o.tags@
        &&& s.owner@ == o.owner@
        &&& s.mode@ == o.mode@
        &&& s.write_to_online_store == o.write_to_online_store
        &&& crate::strings::views(s.entities@) == crate::strings::views(o.entities@)
        &&& features_to_rel(o.entity_columns@, s.entity_columns@)
        &&& s.singleton == o.singleton
        &&& s.version@ == o.version@
        &&& s.org@.len() == 0
        &&& s.disabled == o.disabled
    }
    &&& p.meta matches Some(m) && m.created_timestamp is None && m.last_updated_timestamp is None
        && m.current_version_number == 1 && m.version_id@.len() == 0 && m.state == 0
}

/// Reads an on-demand feature view from its message.
pub fn odfv_from_proto(podfv: &proto::OnDemandFeatureView) -> (r: OnDemandFeatureView)
    requires
        odfv_readable(*podfv),
    ensures
        odfv_from_rel(*podfv, r),
{
    let spec = match &podfv.spec {
        Some(s) => s,
        None => return OnDemandFeatureView::default(),
    };
    let mut sources: Vec<(String, OnDemandSource)> = Vec::new();
    let n = spec.sources.len();
    let mut i: usize = 0;
    while i < n
        invariant
            n == spec.sources@.len(),
            forall|j: int| 0 <= j < n ==> on_demand_source_readable(#[trigger] spec.sources@[j].1),
            i <= n,
            sources@.len() == i,
            forall|j: int|
                0 <= j < i ==> (#[trigger] sources@[j]).0@ == spec.sources@[j].0@
                    && on_demand_source_from_rel(spec.sources@[j].1, sources@[j].1),
        decreases n - i,
    {
        let src = on_demand_source_from_proto(&spec.sources[i].1);
        sources.push((spec.sources[i].0.clone(), src));
        i = i + 1;
    }
    let version = if spec.version.as_str().is_empty() {
        String::from_str("latest")
    } else {
        spec.version.clone()
    };
    OnDemandFeatureView {
        name: spec.name.clone(),
        project: spec.project.clone(),
        features: features_from_proto(&spec.features),
        sources,
        feature_transformation: transformation_from_proto(&spec.feature_transformation),
        description: spec.description.clone(),
        tags: spec.tags.clone(),
        owner: spec.owner.clone(),
        mode: spec.mode.clone(),
        write_to_online_store: spec.write_to_online_store,
        entities: crate::strings::clone_strings(&spec.entities),
        entity_columns: features_from_proto(&spec.entity_columns),
        singleton: spec.singleton,
        version,
        disabled: spec.disabled,
    }
}

/// Writes the message of an on-demand feature view.
pub fn odfv_to_proto(odfv: &OnDemandFeatureView) -> (r: proto::OnDemandFeatureView)
    ensures
        odfv_to_rel(*odfv, r),
{
    let mut sources: Vec<(String, proto::OnDemandSource)> = Vec::new();
    let n = odfv.sources.len();
    let mut i: usize = 0;
    while i < n
        invariant
            n == odfv.sources@.len(),
            i <= n,
            sources@.len() == i,
            forall|j: int|
                0 <= j < i ==> (#[trigger] sources@[j]).0@ == odfv.sources@[j].0@
                    && on_demand_source_to_rel(odfv.sources@[j].1, sources@[j].1),
        decreases n - i,
    {
        let src = on_demand_source_to_proto(&odfv.sources[i].1);
        sources.push((odfv.sources[i].0.clone(), src));
        i = i + 1;
    }
    proto::OnDemandFeatureView {
        spec: Some(
            proto::OnDemandFeatureViewSpec {
                name: odfv.name.clone(),
                project: odfv.project.clone(),
                features: features_to_proto(&odfv.features),
                sources,
                feature_transformation: transformation_to_proto(&odfv.feature_transformation),
                description: odfv.description.clone(),
                tags: odfv.tags.clone(),
                owner: odfv.owner.clone(),
                mode: odfv.mode.clone(),
                write_to_online_store: odfv.write_to_online_store,
                entities: crate::strings::clone_strings(&odfv.entities),
                entity_columns: features_to_proto(&odfv.entity_columns),
                singleton: odfv.singleton,
                version: odfv.version.clone(),
                org: String::new(),
                disabled: odfv.disabled,
            },
        ),
        meta: Some(
            proto::OnDemandFeatureViewMeta {
                created_timestamp: None,
                last_updated_timestamp: None,
                current_version_number: 1,
                version_id: String::new(),
                state: 0,
            },
        ),
    }
}

// -------------------------------------------------------- feature services

/// A feature service read from its message: the defaults without a
/// specification.
pub open spec fn feature_service_from_rel(p: proto::FeatureService, f: FeatureService) -> bool {
    &&& match p.spec {
        None => {
            &&& f.name@.len() == 0
            &&& f.project@.len() == 0
            &&& f.features@.len() == 0
            &&& f.tags@ == Map::<String, String>::empty()
            &&& f.description@.len() == 0
            &&& f.owner@.len() == 0
            &&& !f.precompute_online
            &&& f.logging_config is None
            &&& f.created_timestamp is None
            &&& f.last_updated_timestamp is None
        },
        Some(s) => {
            &&& f.name@ == s.name@
            &&& f.project@ == s.project@
            &&& projections_from_rel(s.features@, f.features@)
            &&& f.tags@ == s.tags@
            &&& f.description@ == s.description@
            &&& f.owner@ == s.owner@
            &&& f.precompute_online == s.precompute_online
            &&& match (s.logging_config, f.logging_config) {
                (None, None) => true,
                (Some(x), Some(y)) => logging_from_rel(x, y),
                _ => false,
            }
            &&& f.created_timestamp == match p.meta {
                Some(m) => ts_to_dt_spec(m.created_timestamp),
                None => None,
            }
            &&& f.last_updated_timestamp == match p.meta {
                Some(m) => ts_to_dt_spec(m.last_updated_timestamp),
                None => None,
            }
        },
    }
}

/// The message of a feature service.
pub open spec fn feature_service_to_rel(f: FeatureService, p: proto::FeatureService) -> bool {
    &&& p.spec matches Some(s) && {
        &&& s.name@ == f.name@
        &&& s.project@ == f.project@
        &&& projections_to_rel(f.features@, s.features@)
        &&& s.tags@ == f.tags@
        &&& s.description@ == f.description@
        &&& s.owner@ == f.owner@
        &&& match (f.logging_config, s.logging_config) {
            (None, None) => true,
            (Some(x), Some(y)) => logging_to_rel(x, y),
            _ => false,
        }
        &&& s.precompute_online == f.precompute_online
    }
    &&& p.meta matches Some(m) && m.created_timestamp == dt_to_ts_spec(f.created_timestamp)
        && m.last_updated_timestamp == dt_to_ts_spec(f.last_updated_timestamp)
}

/// Reads a feature service from its message.
pub fn feature_service_from_proto(pfs: &proto::FeatureService) -> (r: FeatureService)
    ensures
        feature_service_from_rel(*pfs, r),
{
    let spec = match &pfs.spec {
        Some(s) => s,
        None => return FeatureService::default(),
    };
    let (created_timestamp, last_updated_timestamp) = match &pfs.meta {
        Some(m) => (ts_to_dt(&m.created_timestamp), ts_to_dt(&m.last_updated_timestamp)),
        None => (None, None),
    };
    let logging_config = match &spec.logging_config {
        Some(l) => Some(logging_from_proto(l)),
        None => None,
    };
    FeatureService {
        name: spec.name.clone(),
        project: spec.project.clone(),
        features: projections_from_proto(&spec.features),
        tags: spec.tags.clone(),
        description: spec.description.clone(),
        owner: spec.owner.clone(),
        precompute_online: spec.precompute_online,
        logging_config,
        created_timestamp,
        last_updated_timestamp,
    }
}

/// Writes the message of a feature service.
pub fn feature_service_to_proto(fs: &FeatureService) -> (r: proto::FeatureService)
    ensures
        feature_service_to_rel(*fs, r),
{
    let logging_config = match &fs.logging_config {
        Some(l) => Some(logging_to_proto(l)),
        None => None,
    };
    proto::FeatureService {
        spec: Some(
            proto::FeatureServiceSpec {
                name: fs.name.clone(),
                project: fs.project.clone(),
                features: projections_to_proto(&fs.features),
                tags: fs.tags.clone(),
                description: fs.description.clone(),
                owner: fs.owner.clone(),
                logging_config,
                precompute_online: fs.precompute_online,
            },
        ),
        meta: Some(
            proto::FeatureServiceMeta {
                created_timestamp: dt_to_ts(&fs.created_timestamp),
                last_updated_timestamp: dt_to_ts(&fs.last_updated_timestamp),
            },
        ),
    }
}

// ------------------------------------------------------- round trips, rest

/// Whether two on-demand sources hold the same values.
pub open spec fn same_on_demand_source(a: OnDemandSource, b: OnDemandSource) -> bool {
    match a {
        OnDemandSource::FeatureView(x) => b matches OnDemandSource::FeatureView(y) && same_feature_view(x, y),
        OnDemandSource::FeatureViewProjection(x) => b matches OnDemandSource::FeatureViewProjection(y)
            && same_projection(x, y),
        OnDemandSource::RequestDataSource(x) => b matches OnDemandSource::RequestDataSource(y)
            && same_data_source(x, y),
    }
}

/// An on-demand source that a write and a read keep.
pub open spec fn on_demand_source_canonical(o: OnDemandSource) -> bool {
    match o {
        OnDemandSource::FeatureView(x) => feature_view_canonical(x),
        OnDemandSource::FeatureViewProjection(x) => projection_canonical(x),
        OnDemandSource::RequestDataSource(x) => data_source_canonical(x),
    }
}

/// A canonical on-demand source written and read back holds the values it
/// had.
pub proof fn lemma_on_demand_source_roundtrip(
    o: OnDemandSource,
    p: proto::OnDemandSource,
    q: OnDemandSource,
)
    requires
        on_demand_source_canonical(o),
        on_demand_source_to_rel(o, p),
        on_demand_source_from_rel(p, q),
    ensures
        same_on_demand_source(o, q),
{
    match o {
        OnDemandSource::FeatureView(x) => {
            if let (Some(proto::OnDemandSourceKind::FeatureView(pv)), OnDemandSource::FeatureView(y)) = (
                p.source,
                q,
            ) {
                lemma_feature_view_roundtrip(x, pv, y);
            }
        },
        OnDemandSource::FeatureViewProjection(x) => {
            if let (
                Some(proto::OnDemandSourceKind::FeatureViewProjection(pp)),
                OnDemandSource::FeatureViewProjection(y),
            ) = (p.source, q) {
                lemma_projection_roundtrip(x, pp, y);
            }
        },
        OnDemandSource::RequestDataSource(x) => {
            if let (
                Some(proto::OnDemandSourceKind::RequestDataSource(pd)),
                OnDemandSource::RequestDataSource(y),
            ) = (p.source, q) {
                lemma_data_source_roundtrip(x, pd, y);
            }
        },
    }
}

/// Whether two transformations hold the same values.
pub open spec fn same_transformation(a: Option<FeatureTransformation>, b: Option<FeatureTransformation>) -> bool {
    match (a, b) {
        (None, None) => true,
        (Some(x), Some(y)) => {
            &&& match (x.udf, y.udf) {
                (None, None) => true,
                (Some(u), Some(v)) => u.name@ == v.name@ && u.body@ == v.body@ && u.body_text@
                    == v.body_text@ && u.mode@ == v.mode@,
                _ => false,
            }
            &&& match (x.substrait_plan, y.substrait_plan) {
                (None, None) => true,
                (Some(u), Some(v)) => u@ == v@,
                _ => false,
            }
        },
        _ => false,
    }
}

/// An on-demand feature view that a write and a read keep: canonical
/// features and sources, a version that is not empty, and a transformation,
/// where there is one, with exactly one of a function and a plan.
pub open spec fn odfv_canonical(o: OnDemandFeatureView) -> bool {
    &&& features_canonical(o.features@)
    &&& features_canonical(o.entity_columns@)
    &&& forall|i: int| 0 <= i < o.sources@.len() ==> on_demand_source_canonical(#[trigger] o.sources@[i].1)
    &&& o.version@.len() > 0
    &&& o.feature_transformation matches Some(t) ==> (t.udf is Some <==> t.substrait_plan is None)
}

/// Whether two on-demand feature views hold the same values.
pub open spec fn same_odfv(a: OnDemandFeatureView, b: OnDemandFeatureView) -> bool {
    &&& a.name@ == b.name@
    &&& a.project@ == b.project@
    &&& same_features(a.features@, b.features@)
    &&& a.sources@.len() == b.sources@.len()
    &&& forall|i: int|
        0 <= i < a.sources@.len() ==> (#[trigger] a.sources@[i]).0@ == b.sources@[i].0@
            && same_on_demand_source(a.sources@[i].1, b.sources@[i].1)
    &&& same_transformation(a.feature_transformation, b.feature_transformation)
    &&& a.description@ == b.description@
    &&& a.tags@ == b.tags@
    &&& a.owner@ == b.owner@
    &&& a.mode@ == b.mode@
    &&& a.write_to_online_store == b.write_to_online_store
    &&& crate::strings::views(a.entities@) == crate::strings::views(b.entities@)
    &&& same_features(a.entity_columns@, b.entity_columns@)
    &&& a.singleton == b.singleton
    &&& a.version@ == b.version@
    &&& a.disabled == b.disabled
}

/// A canonical on-demand feature view written and read back holds the
/// values it had.
pub proof fn lemma_odfv_roundtrip(o: OnDemandFeatureView, p: proto::OnDemandFeatureView, q: OnDemandFeatureView)
    requires
        odfv_canonical(o),
        odfv_to_rel(o, p),
        odfv_from_rel(p, q),
    ensures
        same_odfv(o, q),
{
    let s = p.spec->0;
    lemma_features_roundtrip(o.features@, s.features@, q.features@);
    lemma_features_roundtrip(o.entity_columns@, s.entity_columns@, q.entity_columns@);
    assert forall|i: int| 0 <= i < o.sources@.len() implies (#[trigger] o.sources@[i]).0@
        == q.sources@[i].0@ && same_on_demand_source(o.sources@[i].1, q.sources@[i].1) by {
        lemma_on_demand_source_roundtrip(o.sources@[i].1, s.sources@[i].1, q.sources@[i].1);
    }
}

/// Whether two logging configurations hold the same values.
pub open spec fn same_logging(a: LoggingConfig, b: LoggingConfig) -> bool {
    &&& a.sample_rate_bits == b.sample_rate_bits
    &&& match a.destination {
        LoggingDestination::File { path, s3_endpoint_override, partition_by } => b.destination matches LoggingDestination::File {
            path: p2,
            s3_endpoint_override: s2,
            partition_by: b2,
        } && path@ == p2@ && same_opt(s3_endpoint_override, s2) && crate::strings::views(
            partition_by@,
        ) == crate::strings::views(b2@),
        LoggingDestination::BigQuery { table_ref } => b.destination matches LoggingDestination::BigQuery {
            table_ref: t2,
        } && table_ref@ == t2@,
        LoggingDestination::Redshift { table_name } => b.destination matches LoggingDestination::Redshift {
            table_name: t2,
        } && table_name@ == t2@,
        LoggingDestination::Snowflake { table_name } => b.destination matches LoggingDestination::Snowflake {
            table_name: t2,
        } && table_name@ == t2@,
        LoggingDestination::Athena { table_name } => b.destination matches LoggingDestination::Athena {
            table_name: t2,
        } && table_name@ == t2@,
        LoggingDestination::Custom { kind, config } => b.destination matches LoggingDestination::Custom {
            kind: k2,
            config: c2,
        } && kind@ == k2@ && crate::kv::pairs_view(config@) == crate::kv::pairs_view(c2@),
    }
}

/// Whether two feature services hold the same values.
pub open spec fn same_feature_service(a: FeatureService, b: FeatureService) -> bool {
    &&& a.name@ == b.name@
    &&& a.project@ == b.project@
    &&& a.features@.len() == b.features@.len()
    &&& forall|i: int| 0 <= i < a.features@.len() ==> same_projection(#[trigger] a.features@[i], b.features@[i])
    &&& a.tags@ == b.tags@
    &&& a.description@ == b.description@
    &&& a.owner@ == b.owner@
    &&& a.precompute_online == b.precompute_online
    &&& match (a.logging_config, b.logging_config) {
        (None, None) => true,
        (Some(x), Some(y)) => same_logging(x, y),
        _ => false,
    }
    &&& a.created_timestamp == b.created_timestamp
    &&& a.last_updated_timestamp == b.last_updated_timestamp
}

/// A feature service that a write and a read keep: canonical projections
/// and times, and a file logging destination whose endpoint override, if
/// given, is not empty.
pub open spec fn feature_service_canonical(f: FeatureService) -> bool {
    &&& forall|i: int| 0 <= i < f.features@.len() ==> projection_canonical(#[trigger] f.features@[i])
    &&& f.logging_config matches Some(l) ==> (l.destination matches LoggingDestination::File {
        s3_endpoint_override,
        ..
    } ==> opt_text_canonical(s3_endpoint_override))
    &&& opt_dt_canonical(f.created_timestamp)
    &&& opt_dt_canonical(f.last_updated_timestamp)
}

/// A canonical feature service written and read back holds the values it
/// had.
pub proof fn lemma_feature_service_roundtrip(f: FeatureService, p: proto::FeatureService, g: FeatureService)
    requires
        feature_service_canonical(f),
        feature_service_to_rel(f, p),
        feature_service_from_rel(p, g),
    ensures
        same_feature_service(f, g),
{
    let s = p.spec->0;
    assert forall|i: int| 0 <= i < f.features@.len() implies same_projection(
        #[trigger] f.features@[i],
        g.features@[i],
    ) by {
        lemma_projection_roundtrip(f.features@[i], s.features@[i], g.features@[i]);
    }
    lemma_timestamp_roundtrip(f.created_timestamp);
    lemma_timestamp_roundtrip(f.last_updated_timestamp);
}

} // verus!
