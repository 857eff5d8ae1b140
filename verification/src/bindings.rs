//! The value objects that the Python bindings hand out: Python-facing enums
//! for value types, source types and file formats, and thin handles around
//! the core registry objects.
use std::collections::HashMap;
use vstd::prelude::*;

use crate::entity_key::{deserialize_entity_key_v3, serialize_entity_key_v3};
use crate::online::OnlineReadResponse;
use crate::source::{debug_list, debug_list_spec};
use crate::strings::{concat_str, str_eq};
use crate::time::Duration;
use crate::types::{
    DataSource, DataSourceOptions, Entity, EntityKey, Feature, FeatureService, FeatureView,
    FeatureViewProjection, FeatureViewWithProjection, FileFormat, RepoConfig, SourceType,
};
use crate::value_type::{
    ValueType, value_type_is_list, value_type_is_primitive, value_type_is_set, value_type_name,
    value_type_of_code,
};

verus! {

/// The value types that the Python bindings expose; core value types
/// without a Python counterpart show as `Invalid`.
#[derive(Debug, Clone, Copy, PartialEq, Eq, Structural)]
pub enum PyValueType {
    Invalid,
    Bytes,
    String,
    Int32,
    Int64,
    Double,
    Float,
    Bool,
    UnixTimestamp,
    BytesList,
    StringList,
    Int32List,
    Int64List,
    DoubleList,
    FloatList,
    BoolList,
    UnixTimestampList,
    Null,
    MapValue,
    MapList,
    BytesSet,
    StringSet,
    Int32Set,
    Int64Set,
    DoubleSet,
    FloatSet,
    BoolSet,
    UnixTimestampSet,
    Uuid,
    UuidList,
    UuidSet,
    Decimal,
    DecimalList,
    DecimalSet,
    Struct,
    StructList,
    Json,
    JsonList,
}

/// The Python value type shown for a core value type.
pub open spec fn py_value_type_of(vt: ValueType) -> PyValueType {
    match vt {
        ValueType::Invalid => PyValueType::Invalid,
        ValueType::Bytes => PyValueType::Bytes,
        ValueType::String => PyValueType::String,
        ValueType::Int32 => PyValueType::Int32,
        ValueType::Int64 => PyValueType::Int64,
        ValueType::Double => PyValueType::Double,
        ValueType::Float => PyValueType::Float,
        ValueType::Bool => PyValueType::Bool,
        ValueType::UnixTimestamp => PyValueType::UnixTimestamp,
        ValueType::BytesList => PyValueType::BytesList,
        ValueType::StringList => PyValueType::StringList,
        ValueType::Int32List => PyValueType::Int32List,
        ValueType::Int64List => PyValueType::Int64List,
        ValueType::DoubleList => PyValueType::DoubleList,
        ValueType::FloatList => PyValueType::FloatList,
        ValueType::BoolList => PyValueType::BoolList,
        ValueType::UnixTimestampList => PyValueType::UnixTimestampList,
        ValueType::Null => PyValueType::Null,
        ValueType::MapValue => PyValueType::MapValue,
        ValueType::MapList => PyValueType::MapList,
        ValueType::BytesSet => PyValueType::BytesSet,
        ValueType::StringSet => PyValueType::StringSet,
        ValueType::Int32Set => PyValueType::Int32Set,
        ValueType::Int64Set => PyValueType::Int64Set,
        ValueType::DoubleSet => PyValueType::DoubleSet,
        ValueType::FloatSet => PyValueType::FloatSet,
        ValueType::BoolSet => PyValueType::BoolSet,
        ValueType::UnixTimestampSet => PyValueType::UnixTimestampSet,
        ValueType::Uuid => PyValueType::Uuid,
        ValueType::UuidList => PyValueType::UuidList,
        ValueType::UuidSet => PyValueType::UuidSet,
        ValueType::Decimal => PyValueType::Decimal,
        ValueType::DecimalList => PyValueType::DecimalList,
        ValueType::DecimalSet => PyValueType::DecimalSet,
        ValueType::Struct => PyValueType::Struct,
        ValueType::StructList => PyValueType::StructList,
        ValueType::Json => PyValueType::Json,
        ValueType::JsonList => PyValueType::JsonList,
        _ => PyValueType::Invalid,
    }
}

/// The core value type of a Python value type.
pub open spec fn value_type_of_py(p: PyValueType) -> ValueType {
    match p {
        PyValueType::Invalid => ValueType::Invalid,
        PyValueType::Bytes => ValueType::Bytes,
        PyValueType::String => ValueType::String,
        PyValueType::Int32 => ValueType::Int32,
        PyValueType::Int64 => ValueType::Int64,
        PyValueType::Double => ValueType::Double,
        PyValueType::Float => ValueType::Float,
        PyValueType::Bool => ValueType::Bool,
        PyValueType::UnixTimestamp => ValueType::UnixTimestamp,
        PyValueType::BytesList => ValueType::BytesList,
        PyValueType::StringList => ValueType::StringList,
        PyValueType::Int32List => ValueType::Int32List,
        PyValueType::Int64List => ValueType::Int64List,
        PyValueType::DoubleList => ValueType::DoubleList,
        PyValueType::FloatList => ValueType::FloatList,
        PyValueType::BoolList => ValueType::BoolList,
        PyValueType::UnixTimestampList => ValueType::UnixTimestampList,
        PyValueType::Null => ValueType::Null,
        PyValueType::MapValue => ValueType::MapValue,
        PyValueType::MapList => ValueType::MapList,
        PyValueType::BytesSet => ValueType::BytesSet,
        PyValueType::StringSet => ValueType::StringSet,
        PyValueType::Int32Set => ValueType::Int32Set,
        PyValueType::Int64Set => ValueType::Int64Set,
        PyValueType::DoubleSet => ValueType::DoubleSet,
        PyValueType::FloatSet => ValueType::FloatSet,
        PyValueType::BoolSet => ValueType::BoolSet,
        PyValueType::UnixTimestampSet => ValueType::UnixTimestampSet,
        PyValueType::Uuid => ValueType::Uuid,
        PyValueType::UuidList => ValueType::UuidList,
        PyValueType::UuidSet => ValueType::UuidSet,
        PyValueType::Decimal => ValueType::Decimal,
        PyValueType::DecimalList => ValueType::DecimalList,
        PyValueType::DecimalSet => ValueType::DecimalSet,
        PyValueType::Struct => ValueType::Struct,
        PyValueType::StructList => ValueType::StructList,
        PyValueType::Json => ValueType::Json,
        PyValueType::JsonList => ValueType::JsonList,
    }
}

/// Whether a core value type has a Python counterpart of its own.
pub open spec fn has_py_value_type(vt: ValueType) -> bool {
    match vt {
        ValueType::Invalid
        | ValueType::Bytes
        | ValueType::String
        | ValueType::Int32
        | ValueType::Int64
        | ValueType::Double
        | ValueType::Float
        | ValueType::Bool
        | ValueType::UnixTimestamp
        | ValueType::BytesList
        | ValueType::StringList
        | ValueType::Int32List
        | ValueType::Int64List
        | ValueType::DoubleList
        | ValueType::FloatList
        | ValueType::BoolList
        | ValueType::UnixTimestampList
        | ValueType::Null
        | ValueType::MapValue
        | ValueType::MapList
        | ValueType::BytesSet
        | ValueType::StringSet
        | ValueType::Int32Set
        | ValueType::Int64Set
        | ValueType::DoubleSet
        | ValueType::FloatSet
        | ValueType::BoolSet
        | ValueType::UnixTimestampSet
        | ValueType::Uuid
        | ValueType::UuidList
        | ValueType::UuidSet
        | ValueType::Decimal
        | ValueType::DecimalList
        | ValueType::DecimalSet
        | ValueType::Struct
        | ValueType::StructList
        | ValueType::Json
        | ValueType::JsonList => true,
        _ => false,
    }
}

impl PyValueType {
    /// The Python value type shown for `vt`; value types without a Python
    /// counterpart give `Invalid`.
    pub fn from_value_type(vt: &ValueType) -> (r: Self)
        ensures
            r == py_value_type_of(*vt),
    {
        match vt {
            ValueType::Invalid => PyValueType::Invalid,
            ValueType::Bytes => PyValueType::Bytes,
            ValueType::String => PyValueType::String,
            ValueType::Int32 => PyValueType::Int32,
            ValueType::Int64 => PyValueType::Int64,
            ValueType::Double => PyValueType::Double,
            ValueType::Float => PyValueType::Float,
            ValueType::Bool => PyValueType::Bool,
            ValueType::UnixTimestamp => PyValueType::UnixTimestamp,
            ValueType::BytesList => PyValueType::BytesList,
            ValueType::StringList => PyValueType::StringList,
            ValueType::Int32List => PyValueType::Int32List,
            ValueType::Int64List => PyValueType::Int64List,
            ValueType::DoubleList => PyValueType::DoubleList,
            ValueType::FloatList => PyValueType::FloatList,
            ValueType::BoolList => PyValueType::BoolList,
            ValueType::UnixTimestampList => PyValueType::UnixTimestampList,
            ValueType::Null => PyValueType::Null,
            ValueType::MapValue => PyValueType::MapValue,
            ValueType::MapList => PyValueType::MapList,
            ValueType::BytesSet => PyValueType::BytesSet,
            ValueType::StringSet => PyValueType::StringSet,
            ValueType::Int32Set => PyValueType::Int32Set,
            ValueType::Int64Set => PyValueType::Int64Set,
            ValueType::DoubleSet => PyValueType::DoubleSet,
            ValueType::FloatSet => PyValueType::FloatSet,
            ValueType::BoolSet => PyValueType::BoolSet,
            ValueType::UnixTimestampSet => PyValueType::UnixTimestampSet,
            ValueType::Uuid => PyValueType::Uuid,
            ValueType::UuidList => PyValueType::UuidList,
            ValueType::UuidSet => PyValueType::UuidSet,
            ValueType::Decimal => PyValueType::Decimal,
            ValueType::DecimalList => PyValueType::DecimalList,
            ValueType::DecimalSet => PyValueType::DecimalSet,
            ValueType::Struct => PyValueType::Struct,
            ValueType::StructList => PyValueType::StructList,
            ValueType::Json => PyValueType::Json,
            ValueType::JsonList => PyValueType::JsonList,
            _ => PyValueType::Invalid,
        }
    }

    /// The core value type of this Python value type.
    pub fn to_value_type(&self) -> (r: ValueType)
        ensures
            r == value_type_of_py(*self),
    {
        match self {
            PyValueType::Invalid => ValueType::Invalid,
            PyValueType::Bytes => ValueType::Bytes,
            PyValueType::String => ValueType::String,
            PyValueType::Int32 => ValueType::Int32,
            PyValueType::Int64 => ValueType::Int64,
            PyValueType::Double => ValueType::Double,
            PyValueType::Float => ValueType::Float,
            PyValueType::Bool => ValueType::Bool,
            PyValueType::UnixTimestamp => ValueType::UnixTimestamp,
            PyValueType::BytesList => ValueType::BytesList,
            PyValueType::StringList => ValueType::StringList,
            PyValueType::Int32List => ValueType::Int32List,
            PyValueType::Int64List => ValueType::Int64List,
            PyValueType::DoubleList => ValueType::DoubleList,
            PyValueType::FloatList => ValueType::FloatList,
            PyValueType::BoolList => ValueType::BoolList,
            PyValueType::UnixTimestampList => ValueType::UnixTimestampList,
            PyValueType::Null => ValueType::Null,
            PyValueType::MapValue => ValueType::MapValue,
            PyValueType::MapList => ValueType::MapList,
            PyValueType::BytesSet => ValueType::BytesSet,
            PyValueType::StringSet => ValueType::StringSet,
            PyValueType::Int32Set => ValueType::Int32Set,
            PyValueType::Int64Set => ValueType::Int64Set,
            PyValueType::DoubleSet => ValueType::DoubleSet,
            PyValueType::FloatSet => ValueType::FloatSet,
            PyValueType::BoolSet => ValueType::BoolSet,
            PyValueType::UnixTimestampSet => ValueType::UnixTimestampSet,
            PyValueType::Uuid => ValueType::Uuid,
            PyValueType::UuidList => ValueType::UuidList,
            PyValueType::UuidSet => ValueType::UuidSet,
            PyValueType::Decimal => ValueType::Decimal,
            PyValueType::DecimalList => ValueType::DecimalList,
            PyValueType::DecimalSet => ValueType::DecimalSet,
            PyValueType::Struct => ValueType::Struct,
            PyValueType::StructList => ValueType::StructList,
            PyValueType::Json => ValueType::Json,
            PyValueType::JsonList => ValueType::JsonList,
        }
    }

    /// The Python value type of the numeric code `v`, or `None` for an
    /// unknown code.
    pub fn from_i32(v: i32) -> (r: Option<Self>)
        ensures
            r == (match value_type_of_code(v) {
                Some(vt) => Some(py_value_type_of(vt)),
                None => None,
            }),
    {
        match ValueType::from_i32(v) {
            Some(vt) => Some(Self::from_value_type(&vt)),
            None => None,
        }
    }

    /// Whether this is a scalar value type.
    pub fn is_primitive(&self) -> (r: bool)
        ensures
            r == value_type_is_primitive(value_type_of_py(*self)),
    {
        self.to_value_type().is_primitive()
    }

    /// Whether this is a list value type.
    pub fn is_list(&self) -> (r: bool)
        ensures
            r == value_type_is_list(value_type_of_py(*self)),
    {
        self.to_value_type().is_list()
    }

    /// Whether this is a set value type.
    pub fn is_set(&self) -> (r: bool)
        ensures
            r == value_type_is_set(value_type_of_py(*self)),
    {
        self.to_value_type().is_set()
    }

    /// The display name, as the core value type shows it.
    pub fn to_string(&self) -> (r: String)
        ensures
            r@ == value_type_name(value_type_of_py(*self)),
    {
        self.to_value_type().to_string()
    }
}

/// Going from a Python value type to the core one and back is the identity,
/// and so is the way back for every core value type with a Python
/// counterpart; the others come back as `Invalid`.
pub proof fn lemma_py_value_type_roundtrip(p: PyValueType, vt: ValueType)
    ensures
        py_value_type_of(value_type_of_py(p)) == p,
        has_py_value_type(value_type_of_py(p)),
        has_py_value_type(vt) ==> value_type_of_py(py_value_type_of(vt)) == vt,
        !has_py_value_type(vt) ==> py_value_type_of(vt) == PyValueType::Invalid,
{
}

/// The source types that the Python bindings expose.
#[derive(Debug, Clone, Copy, PartialEq, Eq, Structural)]
pub enum PySourceType {
    Invalid,
    BatchFile,
    BatchBigQuery,
    StreamKafka,
    StreamKinesis,
    BatchRedshift,
    CustomSource,
    RequestSource,
    BatchSnowflake,
    PushSource,
    BatchTrino,
    BatchSpark,
    BatchAthena,
}

/// The Python source type of a core source type.
pub open spec fn py_source_type_of(t: SourceType) -> PySourceType {
    match t {
        SourceType::Invalid => PySourceType::Invalid,
        SourceType::BatchFile => PySourceType::BatchFile,
        SourceType::BatchBigQuery => PySourceType::BatchBigQuery,
        SourceType::StreamKafka => PySourceType::StreamKafka,
        SourceType::StreamKinesis => PySourceType::StreamKinesis,
        SourceType::BatchRedshift => PySourceType::BatchRedshift,
        SourceType::CustomSource => PySourceType::CustomSource,
        SourceType::RequestSource => PySourceType::RequestSource,
        SourceType::BatchSnowflake => PySourceType::BatchSnowflake,
        SourceType::PushSource => PySourceType::PushSource,
        SourceType::BatchTrino => PySourceType::BatchTrino,
        SourceType::BatchSpark => PySourceType::BatchSpark,
        SourceType::BatchAthena => PySourceType::BatchAthena,
    }
}

/// The core source type of a Python source type.
pub open spec fn source_type_of_py(p: PySourceType) -> SourceType {
    match p {
        PySourceType::Invalid => SourceType::Invalid,
        PySourceType::BatchFile => SourceType::BatchFile,
        PySourceType::BatchBigQuery => SourceType::BatchBigQuery,
        PySourceType::StreamKafka => SourceType::StreamKafka,
        PySourceType::StreamKinesis => SourceType::StreamKinesis,
        PySourceType::BatchRedshift => SourceType::BatchRedshift,
        PySourceType::CustomSource => SourceType::CustomSource,
        PySourceType::RequestSource => SourceType::RequestSource,
        PySourceType::BatchSnowflake => SourceType::BatchSnowflake,
        PySourceType::PushSource => SourceType::PushSource,
        PySourceType::BatchTrino => SourceType::BatchTrino,
        PySourceType::BatchSpark => SourceType::BatchSpark,
        PySourceType::BatchAthena => SourceType::BatchAthena,
    }
}

impl PySourceType {
    /// The Python source type of `st`.
    pub fn from_source_type(st: &SourceType) -> (r: Self)
        ensures
            r == py_source_type_of(*st),
    {
        match st {
            SourceType::Invalid => PySourceType::Invalid,
            SourceType::BatchFile => PySourceType::BatchFile,
            SourceType::BatchBigQuery => PySourceType::BatchBigQuery,
            SourceType::StreamKafka => PySourceType::StreamKafka,
            SourceType::StreamKinesis => PySourceType::StreamKinesis,
            SourceType::BatchRedshift => PySourceType::BatchRedshift,
            SourceType::CustomSource => PySourceType::CustomSource,
            SourceType::RequestSource => PySourceType::RequestSource,
            SourceType::BatchSnowflake => PySourceType::BatchSnowflake,
            SourceType::PushSource => PySourceType::PushSource,
            SourceType::BatchTrino => PySourceType::BatchTrino,
            SourceType::BatchSpark => PySourceType::BatchSpark,
            SourceType::BatchAthena => PySourceType::BatchAthena,
        }
    }

    /// The core source type of this Python source type.
    pub fn to_source_type(&self) -> (r: SourceType)
        ensures
            r == source_type_of_py(*self),
    {
        match self {
            PySourceType::Invalid => SourceType::Invalid,
            PySourceType::BatchFile => SourceType::BatchFile,
            PySourceType::BatchBigQuery => SourceType::BatchBigQuery,
            PySourceType::StreamKafka => SourceType::StreamKafka,
            PySourceType::StreamKinesis => SourceType::StreamKinesis,
            PySourceType::BatchRedshift => SourceType::BatchRedshift,
            PySourceType::CustomSource => SourceType::CustomSource,
            PySourceType::RequestSource => SourceType::RequestSource,
            PySourceType::BatchSnowflake => SourceType::BatchSnowflake,
            PySourceType::PushSource => SourceType::PushSource,
            PySourceType::BatchTrino => SourceType::BatchTrino,
            PySourceType::BatchSpark => SourceType::BatchSpark,
            PySourceType::BatchAthena => SourceType::BatchAthena,
        }
    }

    /// The Python source type of the numeric code `v`, or `None` for an
    /// unknown code.
    pub fn from_i32(v: i32) -> (r: Option<Self>)
        ensures
            r == (match crate::types::source_type_of_code(v) {
                Some(t) => Some(py_source_type_of(t)),
                None => None,
            }),
    {
        match SourceType::from_i32(v) {
            Some(t) => Some(Self::from_source_type(&t)),
            None => None,
        }
    }
}

/// The Python and core source types correspond one to one.
pub proof fn lemma_py_source_type_roundtrip(p: PySourceType, t: SourceType)
    ensures
        py_source_type_of(source_type_of_py(p)) == p,
        source_type_of_py(py_source_type_of(t)) == t,
{
}

/// The file formats that the Python bindings expose.
#[derive(Debug, Clone, Copy, PartialEq, Eq, Structural)]
pub enum PyFileFormat {
    Parquet,
    Csv,
    Arrow,
}

/// `{kind}(name={name})`, the Python `repr` of a named object.
pub open spec fn named_repr(kind: Seq<char>, name: Seq<char>) -> Seq<char> {
    kind + "(name="@ + name + ")"@
}

fn make_named_repr(kind: &str, name: &str) -> (r: String)
    ensures
        r@ == named_repr(kind@, name@),
{
    concat_str(concat_str(concat_str(kind, "(name=").as_str(), name).as_str(), ")")
}

/// A Python handle on an entity.
#[derive(Clone)]
pub struct PyEntity {
    inner: Entity,
}

impl View for PyEntity {
    type V = Entity;

    closed spec fn view(&self) -> Entity {
        self.inner
    }
}

impl PyEntity {
    /// A new entity with the given name and join keys (`Entity::new`).
    pub fn new(name: String, join_keys: Vec<String>) -> (r: Self)
        ensures
            r@.name@ == name@,
            r@.project@ == Seq::<char>::empty(),
            r@.join_keys == join_keys,
            r@.value_type == ValueType::String,
            r@.description@ == Seq::<char>::empty(),
            r@.tags@ == Map::<String, String>::empty(),
            r@.owner@ == Seq::<char>::empty(),
            r@.created_timestamp is None,
            r@.last_updated_timestamp is None,
    {
        PyEntity { inner: Entity::new(name.as_str(), join_keys) }
    }

    /// The entity's name.
    pub fn name(&self) -> (r: String)
        ensures
            r@ == self@.name@,
    {
        self.inner.name.clone()
    }

    /// The entity's join keys.
    pub fn join_keys(&self) -> (r: Vec<String>)
        ensures
            crate::strings::views(r@) == crate::strings::views(self@.join_keys@),
    {
        crate::strings::clone_strings(&self.inner.join_keys)
    }

    /// The entity's value type as Python sees it.
    pub fn value_type(&self) -> (r: PyValueType)
        ensures
            r == py_value_type_of(self@.value_type),
    {
        PyValueType::from_value_type(&self.inner.value_type)
    }

    /// The entity's description.
    pub fn description(&self) -> (r: String)
        ensures
            r@ == self@.description@,
    {
        self.inner.description.clone()
    }

    /// Sets the entity's value type.
    pub fn set_value_type(&mut self, vt: PyValueType)
        ensures
            final(self)@ == (Entity { value_type: value_type_of_py(vt), ..old(self)@ }),
    {
        self.inner.value_type = vt.to_value_type();
    }

    /// Sets the entity's description.
    pub fn set_description(&mut self, desc: String)
        ensures
            final(self)@ == (Entity { description: desc, ..old(self)@ }),
    {
        self.inner.description = desc;
    }

    /// Sets the entity's owner.
    pub fn set_owner(&mut self, owner: String)
        ensures
            final(self)@ == (Entity { owner: owner, ..old(self)@ }),
    {
        self.inner.owner = owner;
    }

    /// `Entity(name=...)`.
    pub fn repr(&self) -> (r: String)
        ensures
            r@ == named_repr("Entity"@, self@.name@),
    {
        make_named_repr("Entity", self.inner.name.as_str())
    }

    /// The handle on `e`.
    pub fn from_entity(e: Entity) -> (r: Self)
        ensures
            r@ == e,
    {
        PyEntity { inner: e }
    }

    /// The entity behind this handle.
    pub fn into_entity(self) -> (r: Entity)
        ensures
            r == self@,
    {
        self.inner
    }

    /// A reference to the entity behind this handle.
    pub fn inner(&self) -> (r: &Entity)
        ensures
            *r == self@,
    {
        &self.inner
    }
}

/// A Python handle on a feature.
#[derive(Clone)]
pub struct PyFeature {
    inner: Feature,
}

impl View for PyFeature {
    type V = Feature;

    closed spec fn view(&self) -> Feature {
        self.inner
    }
}

impl PyFeature {
    /// A new feature with the given name and value type (`Feature::new`).
    pub fn new(name: String, value_type: PyValueType) -> (r: Self)
        ensures
            r@.name@ == name@,
            r@.value_type == value_type_of_py(value_type),
            r@.description@ == Seq::<char>::empty(),
            r@.tags@ == Map::<String, String>::empty(),
            !r@.vector_index,
            r@.vector_search_metric is None,
            r@.vector_length == 0,
    {
        PyFeature { inner: Feature::new(name.as_str(), value_type.to_value_type()) }
    }

    /// The feature's name.
    pub fn name(&self) -> (r: String)
        ensures
            r@ == self@.name@,
    {
        self.inner.name.clone()
    }

    /// The feature's value type as Python sees it.
    pub fn value_type(&self) -> (r: PyValueType)
        ensures
            r == py_value_type_of(self@.value_type),
    {
        PyValueType::from_value_type(&self.inner.value_type)
    }

    /// The feature's description.
    pub fn description(&self) -> (r: String)
        ensures
            r@ == self@.description@,
    {
        self.inner.description.clone()
    }

    /// `Feature(name=...)`.
    pub fn repr(&self) -> (r: String)
        ensures
            r@ == named_repr("Feature"@, self@.name@),
    {
        make_named_repr("Feature", self.inner.name.as_str())
    }

    /// The handle on `f`.
    pub fn from_feature(f: Feature) -> (r: Self)
        ensures
            r@ == f,
    {
        PyFeature { inner: f }
    }

    /// The feature behind this handle.
    pub fn into_feature(self) -> (r: Feature)
        ensures
            r == self@,
    {
        self.inner
    }
}

/// A Python handle on a data source.
pub struct PyDataSource {
    inner: DataSource,
}

impl View for PyDataSource {
    type V = DataSource;

    closed spec fn view(&self) -> DataSource {
        self.inner
    }
}

impl PyDataSource {
    /// The data source's name.
    pub fn name(&self) -> (r: String)
        ensures
            r@ == self@.name@,
    {
        self.inner.name.clone()
    }

    /// The data source's type as Python sees it.
    pub fn source_type(&self) -> (r: PySourceType)
        ensures
            r == py_source_type_of(self@.source_type),
    {
        PySourceType::from_source_type(&self.inner.source_type)
    }

    /// The data source's timestamp column.
    pub fn timestamp_field(&self) -> (r: Option<String>)
        ensures
            crate::source::opt_view(r) == crate::source::opt_view(self@.timestamp_field),
    {
        crate::config::clone_opt_string(&self.inner.timestamp_field)
    }

    /// `DataSource(name=...)`.
    pub fn repr(&self) -> (r: String)
        ensures
            r@ == named_repr("DataSource"@, self@.name@),
    {
        make_named_repr("DataSource", self.inner.name.as_str())
    }

    /// The handle on `ds`.
    pub fn from_data_source(ds: DataSource) -> (r: Self)
        ensures
            r@ == ds,
    {
        PyDataSource { inner: ds }
    }

    /// The data source behind this handle.
    pub fn into_data_source(self) -> (r: DataSource)
        ensures
            r == self@,
    {
        self.inner
    }

    /// A reference to the data source behind this handle.
    pub fn inner(&self) -> (r: &DataSource)
        ensures
            *r == self@,
    {
        &self.inner
    }
}

/// The file format named `name` in the Python API.
pub open spec fn file_format_named(name: Seq<char>) -> Option<FileFormat> {
    if name == "parquet"@ {
        Some(FileFormat::Parquet)
    } else if name == "csv"@ {
        Some(FileFormat::Csv)
    } else if name == "arrow"@ {
        Some(FileFormat::Arrow)
    } else {
        None
    }
}

/// Python-built data source options.
pub struct PyDataSourceOptions {
    inner: DataSourceOptions,
}

impl View for PyDataSourceOptions {
    type V = DataSourceOptions;

    closed spec fn view(&self) -> DataSourceOptions {
        self.inner
    }
}

impl PyDataSourceOptions {
    /// File options for `path` in the format named `file_format` (`parquet`,
    /// `csv` or `arrow`); any other name fails with
    /// `Unknown file format: {name}`.
    pub fn file(path: String, file_format: &str) -> (r: Result<Self, String>)
        ensures
            match file_format_named(file_format@) {
                Some(ff) => r matches Ok(o) && o@ == (DataSourceOptions::File {
                    path: path,
                    file_format: ff,
                    s3_endpoint_override: None,
                }),
                None => r matches Err(m) && m@ == "Unknown file format: "@ + file_format@,
            },
    {
        let ff = if str_eq(file_format, "parquet") {
            FileFormat::Parquet
        } else if str_eq(file_format, "csv") {
            FileFormat::Csv
        } else if str_eq(file_format, "arrow") {
            FileFormat::Arrow
        } else {
            return Err(concat_str("Unknown file format: ", file_format));
        };
        Ok(PyDataSourceOptions { inner: DataSourceOptions::File { path, file_format: ff, s3_endpoint_override: None } })
    }
}

/// A Python handle on a feature view.
#[derive(Clone)]
pub struct PyFeatureView {
    inner: FeatureView,
}

impl View for PyFeatureView {
    type V = FeatureView;

    closed spec fn view(&self) -> FeatureView {
        self.inner
    }
}

impl PyFeatureView {
    /// A new feature view with the given name (`FeatureView::new`).
    pub fn new(name: String) -> (r: Self)
        ensures
            r@.name@ == name@,
            r@.project@ == Seq::<char>::empty(),
            r@.entities@.len() == 0,
            r@.features@.len() == 0,
            r@.ttl is None,
            r@.batch_source is None,
            r@.stream_source is None,
            r@.online,
            !r@.offline,
            r@.version@ == "latest"@,
            r@.materialization_intervals@.len() == 0,
            r@.state == crate::types::FeatureViewState::StateUnspecified,
    {
        PyFeatureView { inner: FeatureView::new(name.as_str()) }
    }

    /// The feature view's name.
    pub fn name(&self) -> (r: String)
        ensures
            r@ == self@.name@,
    {
        self.inner.name.clone()
    }

    /// The names of the feature view's entities.
    pub fn entities(&self) -> (r: Vec<String>)
        ensures
            crate::strings::views(r@) == crate::strings::views(self@.entities@),
    {
        crate::strings::clone_strings(&self.inner.entities)
    }

    /// Handles on copies of the feature view's features, in order.
    pub fn features(&self) -> (r: Vec<PyFeature>)
        ensures
            r@.len() == self@.features@.len(),
            forall|i: int|
                0 <= i < r@.len() ==> crate::serving::same_feature(#[trigger] r@[i]@, self@.features@[i]),
    {
        let mut out: Vec<PyFeature> = Vec::new();
        let n = self.inner.features.len();
        let mut i: usize = 0;
        while i < n
            invariant
                n == self@.features@.len(),
                i <= n,
                out@.len() == i,
                forall|j: int|
                    0 <= j < i ==> crate::serving::same_feature(#[trigger] out@[j]@, self@.features@[j]),
            decreases n - i,
        {
            out.push(PyFeature::from_feature(crate::serving::copy_feature(&self.inner.features[i])));
            i = i + 1;
        }
        out
    }

    /// Appends an entity name.
    pub fn add_entity(&mut self, entity: String)
        ensures
            final(self)@.entities@ == old(self)@.entities@.push(entity),
            final(self)@ == (FeatureView { entities: final(self)@.entities, ..old(self)@ }),
    {
        self.inner.entities.push(entity);
    }

    /// Appends the feature behind `feature`.
    pub fn add_feature(&mut self, feature: PyFeature)
        ensures
            final(self)@.features@ == old(self)@.features@.push(feature@),
            final(self)@ == (FeatureView { features: final(self)@.features, ..old(self)@ }),
    {
        self.inner.features.push(feature.into_feature());
    }

    /// Sets the time to live to `ttl_secs` seconds, read as an unsigned
    /// number (a negative count wraps around).
    pub fn set_ttl_secs(&mut self, ttl_secs: i64)
        ensures
            final(self)@ == (FeatureView {
                ttl: Some(Duration { secs: ttl_secs as u64, nanos: 0 }),
                ..old(self)@
            }),
    {
        self.inner.ttl = Some(Duration::from_secs(ttl_secs as u64));
    }

    /// `FeatureView(name=...)`.
    pub fn repr(&self) -> (r: String)
        ensures
            r@ == named_repr("FeatureView"@, self@.name@),
    {
        make_named_repr("FeatureView", self.inner.name.as_str())
    }

    /// The handle on `fv`.
    pub fn from_feature_view(fv: FeatureView) -> (r: Self)
        ensures
            r@ == fv,
    {
        PyFeatureView { inner: fv }
    }

    /// The feature view behind this handle.
    pub fn into_feature_view(self) -> (r: FeatureView)
        ensures
            r == self@,
    {
        self.inner
    }

    /// A reference to the feature view behind this handle.
    pub fn inner(&self) -> (r: &FeatureView)
        ensures
            *r == self@,
    {
        &self.inner
    }
}

/// A Python handle on an entity key.
#[derive(Clone)]
pub struct PyEntityKey {
    inner: EntityKey,
}

impl View for PyEntityKey {
    type V = EntityKey;

    closed spec fn view(&self) -> EntityKey {
        self.inner
    }
}

impl PyEntityKey {
    /// A new entity key with the given join keys and no values
    /// (`EntityKey::new`).
    pub fn new(join_keys: Vec<String>) -> (r: Self)
        ensures
            r@.join_keys == join_keys,
            r@.entity_values@.len() == 0,
            r@.value_types@.len() == 0,
    {
        PyEntityKey { inner: EntityKey::new(join_keys) }
    }

    /// Appends a join key with its value and value type.
    pub fn add_value(&mut self, key: String, value: Vec<u8>, value_type: PyValueType)
        ensures
            final(self)@.join_keys@ == old(self)@.join_keys@.push(key),
            final(self)@.entity_values@ == old(self)@.entity_values@.push(value),
            final(self)@.value_types@ == old(self)@.value_types@.push(value_type_of_py(value_type)),
    {
        self.inner.join_keys.push(key);
        self.inner.entity_values.push(value);
        self.inner.value_types.push(value_type.to_value_type());
    }

    /// The join keys.
    pub fn join_keys(&self) -> (r: Vec<String>)
        ensures
            crate::strings::views(r@) == crate::strings::views(self@.join_keys@),
    {
        crate::strings::clone_strings(&self.inner.join_keys)
    }

    /// The key in the v3 serialization format.
    pub fn serialize(&self) -> (r: Vec<u8>)
        ensures
            r@ == crate::entity_key::serialized_entity_key(self@),
    {
        serialize_entity_key_v3(&self.inner)
    }

    /// The key decoded from the v3 serialization format, or the decoding
    /// error.
    pub fn deserialize(bytes: Vec<u8>) -> (r: Result<Self, String>)
        ensures
            match (r, crate::entity_key::deserialized_entity_key(bytes@)) {
                (Ok(k), Ok(parsed)) => crate::entity_key::entity_key_matches(k@, parsed),
                (Err(m), Err(sm)) => m@ == sm,
                _ => false,
            },
    {
        match deserialize_entity_key_v3(bytes.as_slice()) {
            Ok(ek) => Ok(PyEntityKey { inner: ek }),
            Err(e) => Err(e),
        }
    }

    /// `EntityKey(join_keys=[...])`, the join keys in their `Debug` form.
    pub fn repr(&self) -> (r: String)
        ensures
            r@ == "EntityKey(join_keys="@ + debug_list_spec(crate::strings::views(self@.join_keys@)) + ")"@,
    {
        let keys = debug_list(&self.inner.join_keys);
        concat_str(concat_str("EntityKey(join_keys=", keys.as_str()).as_str(), ")")
    }

    /// The handle on `ek`.
    pub fn from_entity_key(ek: EntityKey) -> (r: Self)
        ensures
            r@ == ek,
    {
        PyEntityKey { inner: ek }
    }

    /// The entity key behind this handle.
    pub fn into_entity_key(self) -> (r: EntityKey)
        ensures
            r == self@,
    {
        self.inner
    }

    /// A reference to the entity key behind this handle.
    pub fn inner(&self) -> (r: &EntityKey)
        ensures
            *r == self@,
    {
        &self.inner
    }
}

/// A Python handle on a repository configuration.
#[derive(Clone)]
pub struct PyRepoConfig {
    inner: RepoConfig,
}

impl View for PyRepoConfig {
    type V = RepoConfig;

    closed spec fn view(&self) -> RepoConfig {
        self.inner
    }
}

impl PyRepoConfig {
    /// The default configuration (`RepoConfig::default`).
    pub fn new() -> (r: Self)
        ensures
            r@.project@ == "default"@,
            r@.provider@ == "local"@,
            r@.entity_key_serialization_version == 3,
            r@.cache_ttl_seconds == 600,
            r@.cache_mode@ == "sync"@,
    {
        PyRepoConfig { inner: RepoConfig::default() }
    }

    /// The project name.
    pub fn project(&self) -> (r: String)
        ensures
            r@ == self@.project@,
    {
        self.inner.project.clone()
    }

    /// Sets the project name.
    pub fn set_project(&mut self, project: String)
        ensures
            final(self)@ == (RepoConfig { project: project, ..old(self)@ }),
    {
        self.inner.project = project;
    }

    /// The handle on `c`.
    pub fn from_config(c: RepoConfig) -> (r: Self)
        ensures
            r@ == c,
    {
        PyRepoConfig { inner: c }
    }

    /// The configuration behind this handle.
    pub fn into_config(self) -> (r: RepoConfig)
        ensures
            r == self@,
    {
        self.inner
    }

    /// A reference to the configuration behind this handle.
    pub fn inner(&self) -> (r: &RepoConfig)
        ensures
            *r == self@,
    {
        &self.inner
    }
}

/// A Python handle on a feature service.
#[derive(Clone)]
pub struct PyFeatureService {
    inner: FeatureService,
}

impl View for PyFeatureService {
    type V = FeatureService;

    closed spec fn view(&self) -> FeatureService {
        self.inner
    }
}

impl PyFeatureService {
    /// A new feature service with the given name (`FeatureService::new`).
    pub fn new(name: String) -> (r: Self)
        ensures
            r@.name@ == name@,
            r@.project@ == Seq::<char>::empty(),
            r@.features@.len() == 0,
            r@.description@ == Seq::<char>::empty(),
            r@.owner@ == Seq::<char>::empty(),
            !r@.precompute_online,
            r@.logging_config is None,
    {
        PyFeatureService { inner: FeatureService::new(name.as_str()) }
    }

    /// The feature service's name.
    pub fn name(&self) -> (r: String)
        ensures
            r@ == self@.name@,
    {
        self.inner.name.clone()
    }

    /// `FeatureService(name=...)`.
    pub fn repr(&self) -> (r: String)
        ensures
            r@ == named_repr("FeatureService"@, self@.name@),
    {
        make_named_repr("FeatureService", self.inner.name.as_str())
    }

    /// The handle on `s`.
    pub fn from_service(s: FeatureService) -> (r: Self)
        ensures
            r@ == s,
    {
        PyFeatureService { inner: s }
    }

    /// The feature service behind this handle.
    pub fn into_service(self) -> (r: FeatureService)
        ensures
            r == self@,
    {
        self.inner
    }
}

/// Whether `f` is a plain feature named `name` of type `String`, as the
/// Python read builds its columns.
pub open spec fn is_string_column(f: Feature, name: Seq<char>) -> bool {
    &&& f.name@ == name
    &&& f.value_type == ValueType::String
    &&& f.description@ == Seq::<char>::empty()
    &&& f.tags@ == Map::<String, String>::empty()
    &&& !f.vector_index
    &&& f.vector_search_metric is None
    &&& f.vector_length == 0
}

/// The request of a Python online read: a new feature view named
/// `feature_view_name` whose regular projection selects the named features,
/// each typed `String`, with no alias, join key map, timestamp columns or
/// sources.
pub fn online_read_request(feature_view_name: &str, feature_names: &Vec<String>) -> (r:
    FeatureViewWithProjection)
    ensures
        crate::types::is_fresh_feature_view(r.feature_view, feature_view_name@),
        r.projection.feature_view_name@ == feature_view_name@,
        r.projection.feature_view_name_alias is None,
        r.projection.feature_columns@.len() == feature_names@.len(),
        forall|i: int|
            0 <= i < feature_names@.len() ==> is_string_column(
                #[trigger] r.projection.feature_columns@[i],
                feature_names@[i]@,
            ),
        r.projection.join_key_map@ == Map::<String, String>::empty(),
        r.projection.timestamp_field is None,
        r.projection.date_partition_column is None,
        r.projection.created_timestamp_column is None,
        r.projection.batch_source is None,
        r.projection.stream_source is None,
        r.projection.view_type@ == "regular"@,
{
    let mut columns: Vec<Feature> = Vec::new();
    let n = feature_names.len();
    let mut i: usize = 0;
    while i < n
        invariant
            n == feature_names@.len(),
            i <= n,
            columns@.len() == i,
            forall|j: int| 0 <= j < i ==> is_string_column(#[trigger] columns@[j], feature_names@[j]@),
        decreases n - i,
    {
        columns.push(Feature::new(feature_names[i].as_str(), ValueType::String));
        i = i + 1;
    }
    let projection = FeatureViewProjection {
        feature_view_name: String::from_str(feature_view_name),
        feature_view_name_alias: None,
        feature_columns: columns,
        join_key_map: HashMap::new(),
        timestamp_field: None,
        date_partition_column: None,
        created_timestamp_column: None,
        batch_source: None,
        stream_source: None,
        view_type: String::from_str("regular"),
    };
    FeatureViewWithProjection { feature_view: FeatureView::new(feature_view_name), projection }
}

/// A stored value as Python sees it: an empty value is no value.
pub open spec fn py_value(v: Seq<u8>) -> Option<Seq<u8>> {
    if v.len() == 0 {
        None
    } else {
        Some(v)
    }
}

/// The values that a Python online read returns from the store's answer:
/// those of the first result, with empty values as `None`; when there is no
/// result, `n` times `None`.
pub fn online_read_values(resp: &OnlineReadResponse, n: usize) -> (r: Vec<Option<Vec<u8>>>)
    ensures
        resp.results@.len() == 0 ==> r@.len() == n && forall|i: int| 0 <= i < n ==> (#[trigger] r@[i]) is None,
        resp.results@.len() > 0 ==> {
            &&& r@.len() == resp.results@[0].values@.len()
            &&& forall|i: int|
                0 <= i < r@.len() ==> crate::online::opt_byte_rows(r@)[i] == py_value(
                    #[trigger] resp.results@[0].values@[i]@,
                )
        },
{
    let mut out: Vec<Option<Vec<u8>>> = Vec::new();
    if resp.results.len() == 0 {
        let mut i: usize = 0;
        while i < n
            invariant
                i <= n,
                out@.len() == i,
                forall|j: int| 0 <= j < i ==> (#[trigger] out@[j]) is None,
            decreases n - i,
        {
            out.push(None);
            i = i + 1;
        }
        return out;
    }
    let values = &resp.results[0].values;
    let m = values.len();
    let mut i: usize = 0;
    while i < m
        invariant
            m == values@.len(),
            i <= m,
            out@.len() == i,
            forall|j: int|
                0 <= j < i ==> crate::online::opt_byte_rows(out@)[j] == py_value(#[trigger] values@[j]@),
        decreases m - i,
    {
        if values[i].len() == 0 {
            out.push(None);
        } else {
            out.push(Some(values[i].clone()));
        }
        i = i + 1;
    }
    out
}

} // verus!
