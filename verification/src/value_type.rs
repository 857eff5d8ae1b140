//! Feast value types and the Feast type system.
use vstd::prelude::*;
use crate::strings::{
    ascii_lower, ascii_upper, is_ascii_text, str_eq, str_to_uppercase, str_to_uppercase_spec,
};

verus! {

/// The Feast `ValueType`: the type of a feature value or of an entity key value.
#[derive(Debug, Clone, Copy, PartialEq, Eq, Structural, Hash)]
pub enum ValueType {
    Invalid,
    Bytes,
    String,
    Int32,
    Int64,
    Double,
    Float,
    Bool,
    UnixTimestamp,
    BytesList,
    StringList,
    Int32List,
    Int64List,
    DoubleList,
    FloatList,
    BoolList,
    UnixTimestampList,
    Null,
    MapValue,
    MapList,
    BytesSet,
    StringSet,
    Int32Set,
    Int64Set,
    DoubleSet,
    FloatSet,
    BoolSet,
    UnixTimestampSet,
    PdfBytes,
    ImageBytes,
    Json,
    JsonList,
    Struct,
    StructList,
    Uuid,
    TimeUuid,
    UuidList,
    TimeUuidList,
    UuidSet,
    TimeUuidSet,
    ValueList,
    ValueSet,
    Decimal,
    DecimalList,
    DecimalSet,
    ScalarMap,
    ZonedTimestamp,
}

/// The numeric code of a value type, as used on the wire and in protobuf.
pub open spec fn value_type_code(vt: ValueType) -> i32 {
    match vt {
        ValueType::Invalid => 0,
        ValueType::Bytes => 1,
        ValueType::String => 2,
        ValueType::Int32 => 3,
        ValueType::Int64 => 4,
        ValueType::Double => 5,
        ValueType::Float => 6,
        ValueType::Bool => 7,
        ValueType::UnixTimestamp => 8,
        ValueType::BytesList => 11,
        ValueType::StringList => 12,
        ValueType::Int32List => 13,
        ValueType::Int64List => 14,
        ValueType::DoubleList => 15,
        ValueType::FloatList => 16,
        ValueType::BoolList => 17,
        ValueType::UnixTimestampList => 18,
        ValueType::Null => 19,
        ValueType::MapValue => 20,
        ValueType::MapList => 21,
        ValueType::BytesSet => 22,
        ValueType::StringSet => 23,
        ValueType::Int32Set => 24,
        ValueType::Int64Set => 25,
        ValueType::DoubleSet => 26,
        ValueType::FloatSet => 27,
        ValueType::BoolSet => 28,
        ValueType::UnixTimestampSet => 29,
        ValueType::PdfBytes => 30,
        ValueType::ImageBytes => 31,
        ValueType::Json => 32,
        ValueType::JsonList => 33,
        ValueType::Struct => 34,
        ValueType::StructList => 35,
        ValueType::Uuid => 36,
        ValueType::TimeUuid => 37,
        ValueType::UuidList => 38,
        ValueType::TimeUuidList => 39,
        ValueType::UuidSet => 40,
        ValueType::TimeUuidSet => 41,
        ValueType::ValueList => 42,
        ValueType::ValueSet => 43,
        ValueType::Decimal => 44,
        ValueType::DecimalList => 45,
        ValueType::DecimalSet => 46,
        ValueType::ScalarMap => 47,
        ValueType::ZonedTimestamp => 48,
    }
}

/// The value type whose numeric code is `v`, if there is one.
pub open spec fn value_type_of_code(v: i32) -> Option<ValueType> {
    if v == 0 {
        Some(ValueType::Invalid)
    } else if v == 1 {
        Some(ValueType::Bytes)
    } else if v == 2 {
        Some(ValueType::String)
    } else if v == 3 {
        Some(ValueType::Int32)
    } else if v == 4 {
        Some(ValueType::Int64)
    } else if v == 5 {
        Some(ValueType::Double)
    } else if v == 6 {
        Some(ValueType::Float)
    } else if v == 7 {
        Some(ValueType::Bool)
    } else if v == 8 {
        Some(ValueType::UnixTimestamp)
    } else if v == 11 {
        Some(ValueType::BytesList)
    } else if v == 12 {
        Some(ValueType::StringList)
    } else if v == 13 {
        Some(ValueType::Int32List)
    } else if v == 14 {
        Some(ValueType::Int64List)
    } else if v == 15 {
        Some(ValueType::DoubleList)
    } else if v == 16 {
        Some(ValueType::FloatList)
    } else if v == 17 {
        Some(ValueType::BoolList)
    } else if v == 18 {
        Some(ValueType::UnixTimestampList)
    } else if v == 19 {
        Some(ValueType::Null)
    } else if v == 20 {
        Some(ValueType::MapValue)
    } else if v == 21 {
        Some(ValueType::MapList)
    } else if v == 22 {
        Some(ValueType::BytesSet)
    } else if v == 23 {
        Some(ValueType::StringSet)
    } else if v == 24 {
        Some(ValueType::Int32Set)
    } else if v == 25 {
        Some(ValueType::Int64Set)
    } else if v == 26 {
        Some(ValueType::DoubleSet)
    } else if v == 27 {
        Some(ValueType::FloatSet)
    } else if v == 28 {
        Some(ValueType::BoolSet)
    } else if v == 29 {
        Some(ValueType::UnixTimestampSet)
    } else if v == 30 {
        Some(ValueType::PdfBytes)
    } else if v == 31 {
        Some(ValueType::ImageBytes)
    } else if v == 32 {
        Some(ValueType::Json)
    } else if v == 33 {
        Some(ValueType::JsonList)
    } else if v == 34 {
        Some(ValueType::Struct)
    } else if v == 35 {
        Some(ValueType::StructList)
    } else if v == 36 {
        Some(ValueType::Uuid)
    } else if v == 37 {
        Some(ValueType::TimeUuid)
    } else if v == 38 {
        Some(ValueType::UuidList)
    } else if v == 39 {
        Some(ValueType::TimeUuidList)
    } else if v == 40 {
        Some(ValueType::UuidSet)
    } else if v == 41 {
        Some(ValueType::TimeUuidSet)
    } else if v == 42 {
        Some(ValueType::ValueList)
    } else if v == 43 {
        Some(ValueType::ValueSet)
    } else if v == 44 {
        Some(ValueType::Decimal)
    } else if v == 45 {
        Some(ValueType::DecimalList)
    } else if v == 46 {
        Some(ValueType::DecimalSet)
    } else if v == 47 {
        Some(ValueType::ScalarMap)
    } else if v == 48 {
        Some(ValueType::ZonedTimestamp)
    } else {
        None
    }
}

/// The upper-case display name of a value type.
pub open spec fn value_type_name(vt: ValueType) -> Seq<char> {
    match vt {
        ValueType::Invalid => "INVALID"@,
        ValueType::Bytes => "BYTES"@,
        ValueType::String => "STRING"@,
        ValueType::Int32 => "INT32"@,
        ValueType::Int64 => "INT64"@,
        ValueType::Double => "DOUBLE"@,
        ValueType::Float => "FLOAT"@,
        ValueType::Bool => "BOOL"@,
        ValueType::UnixTimestamp => "UNIX_TIMESTAMP"@,
        ValueType::BytesList => "BYTES_LIST"@,
        ValueType::StringList => "STRING_LIST"@,
        ValueType::Int32List => "INT32_LIST"@,
        ValueType::Int64List => "INT64_LIST"@,
        ValueType::DoubleList => "DOUBLE_LIST"@,
        ValueType::FloatList => "FLOAT_LIST"@,
        ValueType::BoolList => "BOOL_LIST"@,
        ValueType::UnixTimestampList => "UNIX_TIMESTAMP_LIST"@,
        ValueType::Null => "NULL"@,
        ValueType::MapValue => "MAP"@,
        ValueType::MapList => "MAP_LIST"@,
        ValueType::BytesSet => "BYTES_SET"@,
        ValueType::StringSet => "STRING_SET"@,
        ValueType::Int32Set => "INT32_SET"@,
        ValueType::Int64Set => "INT64_SET"@,
        ValueType::DoubleSet => "DOUBLE_SET"@,
        ValueType::FloatSet => "FLOAT_SET"@,
        ValueType::BoolSet => "BOOL_SET"@,
        ValueType::UnixTimestampSet => "UNIX_TIMESTAMP_SET"@,
        ValueType::PdfBytes => "PDF_BYTES"@,
        ValueType::ImageBytes => "IMAGE_BYTES"@,
        ValueType::Json => "JSON"@,
        ValueType::JsonList => "JSON_LIST"@,
        ValueType::Struct => "STRUCT"@,
        ValueType::StructList => "STRUCT_LIST"@,
        ValueType::Uuid => "UUID"@,
        ValueType::TimeUuid => "TIME_UUID"@,
        ValueType::UuidList => "UUID_LIST"@,
        ValueType::TimeUuidList => "TIME_UUID_LIST"@,
        ValueType::UuidSet => "UUID_SET"@,
        ValueType::TimeUuidSet => "TIME_UUID_SET"@,
        ValueType::ValueList => "VALUE_LIST"@,
        ValueType::ValueSet => "VALUE_SET"@,
        ValueType::Decimal => "DECIMAL"@,
        ValueType::DecimalList => "DECIMAL_LIST"@,
        ValueType::DecimalSet => "DECIMAL_SET"@,
        ValueType::ScalarMap => "SCALAR_MAP"@,
        ValueType::ZonedTimestamp => "ZONED_TIMESTAMP"@,
    }
}

/// Whether a text is made of upper-case ASCII letters, digits and
/// underscores.
pub open spec fn is_upper_name(s: Seq<char>) -> bool {
    forall|i: int| 0 <= i < s.len() ==> ('A' <= #[trigger] s[i] <= 'Z' || '0' <= s[i] <= '9' || s[i] == '_')
}

/// An upper-case name is ASCII, is its own upper-case form, and is the
/// upper-case form of its lower-case form.
pub proof fn lemma_upper_name_case(s: Seq<char>)
    requires
        is_upper_name(s),
    ensures
        is_ascii_text(s),
        ascii_upper(s) == s,
        ascii_upper(ascii_lower(s)) == s,
        is_ascii_text(ascii_lower(s)),
{
    assert forall|i: int| 0 <= i < s.len() implies (#[trigger] s[i] as u32) < 128 by {
        assert('A' <= s[i] <= 'Z' || '0' <= s[i] <= '9' || s[i] == '_');
    }
    assert(ascii_upper(s) =~= s);
    assert forall|i: int| 0 <= i < s.len() implies #[trigger] ascii_upper(ascii_lower(s))[i] == s[i] by {
        let c = s[i];
        if 'A' <= c <= 'Z' {
            assert((((c as u32) + 32) as char) as u32 == (c as u32) + 32);
        }
    }
    assert(ascii_upper(ascii_lower(s)) =~= s);
    assert forall|i: int| 0 <= i < ascii_lower(s).len() implies (#[trigger] ascii_lower(s)[i] as u32) < 128 by {
        let c = s[i];
        if 'A' <= c <= 'Z' {
            assert((((c as u32) + 32) as char) as u32 == (c as u32) + 32);
        }
    }
}

/// The value type that a (case-folded) name denotes, including the aliases
/// `FLOAT64` and `FLOAT32`.
pub open spec fn value_type_of_name(u: Seq<char>) -> Option<ValueType> {
    if u == "INVALID"@ {
        Some(ValueType::Invalid)
    } else if u == "BYTES"@ {
        Some(ValueType::Bytes)
    } else if u == "STRING"@ {
        Some(ValueType::String)
    } else if u == "INT32"@ {
        Some(ValueType::Int32)
    } else if u == "INT64"@ {
        Some(ValueType::Int64)
    } else if u == "DOUBLE"@ {
        Some(ValueType::Double)
    } else if u == "FLOAT64"@ {
        Some(ValueType::Double)
    } else if u == "FLOAT"@ {
        Some(ValueType::Float)
    } else if u == "FLOAT32"@ {
        Some(ValueType::Float)
    } else if u == "BOOL"@ {
        Some(ValueType::Bool)
    } else if u == "UNIX_TIMESTAMP"@ {
        Some(ValueType::UnixTimestamp)
    } else if u == "BYTES_LIST"@ {
        Some(ValueType::BytesList)
    } else if u == "STRING_LIST"@ {
        Some(ValueType::StringList)
    } else if u == "INT32_LIST"@ {
        Some(ValueType::Int32List)
    } else if u == "INT64_LIST"@ {
        Some(ValueType::Int64List)
    } else if u == "DOUBLE_LIST"@ {
        Some(ValueType::DoubleList)
    } else if u == "FLOAT_LIST"@ {
        Some(ValueType::FloatList)
    } else if u == "BOOL_LIST"@ {
        Some(ValueType::BoolList)
    } else if u == "UNIX_TIMESTAMP_LIST"@ {
        Some(ValueType::UnixTimestampList)
    } else if u == "NULL"@ {
        Some(ValueType::Null)
    } else if u == "MAP"@ {
        Some(ValueType::MapValue)
    } else if u == "MAP_LIST"@ {
        Some(ValueType::MapList)
    } else if u == "BYTES_SET"@ {
        Some(ValueType::BytesSet)
    } else if u == "STRING_SET"@ {
        Some(ValueType::StringSet)
    } else if u == "INT32_SET"@ {
        Some(ValueType::Int32Set)
    } else if u == "INT64_SET"@ {
        Some(ValueType::Int64Set)
    } else if u == "DOUBLE_SET"@ {
        Some(ValueType::DoubleSet)
    } else if u == "FLOAT_SET"@ {
        Some(ValueType::FloatSet)
    } else if u == "BOOL_SET"@ {
        Some(ValueType::BoolSet)
    } else if u == "UNIX_TIMESTAMP_SET"@ {
        Some(ValueType::UnixTimestampSet)
    } else if u == "JSON"@ {
        Some(ValueType::Json)
    } else if u == "JSON_LIST"@ {
        Some(ValueType::JsonList)
    } else if u == "STRUCT"@ {
        Some(ValueType::Struct)
    } else if u == "STRUCT_LIST"@ {
        Some(ValueType::StructList)
    } else if u == "UUID"@ {
        Some(ValueType::Uuid)
    } else if u == "TIME_UUID"@ {
        Some(ValueType::TimeUuid)
    } else if u == "UUID_LIST"@ {
        Some(ValueType::UuidList)
    } else if u == "TIME_UUID_LIST"@ {
        Some(ValueType::TimeUuidList)
    } else if u == "UUID_SET"@ {
        Some(ValueType::UuidSet)
    } else if u == "TIME_UUID_SET"@ {
        Some(ValueType::TimeUuidSet)
    } else if u == "VALUE_LIST"@ {
        Some(ValueType::ValueList)
    } else if u == "VALUE_SET"@ {
        Some(ValueType::ValueSet)
    } else if u == "DECIMAL"@ {
        Some(ValueType::Decimal)
    } else if u == "DECIMAL_LIST"@ {
        Some(ValueType::DecimalList)
    } else if u == "DECIMAL_SET"@ {
        Some(ValueType::DecimalSet)
    } else if u == "SCALAR_MAP"@ {
        Some(ValueType::ScalarMap)
    } else if u == "ZONED_TIMESTAMP"@ {
        Some(ValueType::ZonedTimestamp)
    } else {
        None
    }
}

/// Scalar (non-collection) value types.
pub open spec fn value_type_is_primitive(vt: ValueType) -> bool {
    ||| vt is Invalid
    ||| vt is Bytes
    ||| vt is String
    ||| vt is Int32
    ||| vt is Int64
    ||| vt is Double
    ||| vt is Float
    ||| vt is Bool
    ||| vt is UnixTimestamp
    ||| vt is Null
    ||| vt is PdfBytes
    ||| vt is ImageBytes
    ||| vt is Json
    ||| vt is Uuid
    ||| vt is TimeUuid
    ||| vt is Decimal
    ||| vt is ZonedTimestamp
    ||| vt is ScalarMap
    ||| vt is MapValue
}

/// List value types.
pub open spec fn value_type_is_list(vt: ValueType) -> bool {
    ||| vt is BytesList
    ||| vt is StringList
    ||| vt is Int32List
    ||| vt is Int64List
    ||| vt is DoubleList
    ||| vt is FloatList
    ||| vt is BoolList
    ||| vt is UnixTimestampList
    ||| vt is JsonList
    ||| vt is StructList
    ||| vt is UuidList
    ||| vt is TimeUuidList
    ||| vt is ValueList
    ||| vt is DecimalList
    ||| vt is MapList
}

/// Set value types.
pub open spec fn value_type_is_set(vt: ValueType) -> bool {
    ||| vt is BytesSet
    ||| vt is StringSet
    ||| vt is Int32Set
    ||| vt is Int64Set
    ||| vt is DoubleSet
    ||| vt is FloatSet
    ||| vt is BoolSet
    ||| vt is UnixTimestampSet
    ||| vt is UuidSet
    ||| vt is TimeUuidSet
    ||| vt is DecimalSet
    ||| vt is ValueSet
}

impl Default for ValueType {
    fn default() -> (r: Self)
        ensures
            r == ValueType::Invalid,
    {
        ValueType::Invalid
    }
}

impl ValueType {
    /// The numeric code of this value type.
    pub fn to_i32(&self) -> (r: i32)
        ensures
            r == value_type_code(*self),
    {
        match self {
            ValueType::Invalid => 0,
            ValueType::Bytes => 1,
            ValueType::String => 2,
            ValueType::Int32 => 3,
            ValueType::Int64 => 4,
            ValueType::Double => 5,
            ValueType::Float => 6,
            ValueType::Bool => 7,
            ValueType::UnixTimestamp => 8,
            ValueType::BytesList => 11,
            ValueType::StringList => 12,
            ValueType::Int32List => 13,
            ValueType::Int64List => 14,
            ValueType::DoubleList => 15,
            ValueType::FloatList => 16,
            ValueType::BoolList => 17,
            ValueType::UnixTimestampList => 18,
            ValueType::Null => 19,
            ValueType::MapValue => 20,
            ValueType::MapList => 21,
            ValueType::BytesSet => 22,
            ValueType::StringSet => 23,
            ValueType::Int32Set => 24,
            ValueType::Int64Set => 25,
            ValueType::DoubleSet => 26,
            ValueType::FloatSet => 27,
            ValueType::BoolSet => 28,
            ValueType::UnixTimestampSet => 29,
            ValueType::PdfBytes => 30,
            ValueType::ImageBytes => 31,
            ValueType::Json => 32,
            ValueType::JsonList => 33,
            ValueType::Struct => 34,
            ValueType::StructList => 35,
            ValueType::Uuid => 36,
            ValueType::TimeUuid => 37,
            ValueType::UuidList => 38,
            ValueType::TimeUuidList => 39,
            ValueType::UuidSet => 40,
            ValueType::TimeUuidSet => 41,
            ValueType::ValueList => 42,
            ValueType::ValueSet => 43,
            ValueType::Decimal => 44,
            ValueType::DecimalList => 45,
            ValueType::DecimalSet => 46,
            ValueType::ScalarMap => 47,
            ValueType::ZonedTimestamp => 48,
        }
    }

    /// The value type with numeric code `v`, or `None` for an unknown code.
    pub fn from_i32(v: i32) -> (r: Option<Self>)
        ensures
            r == value_type_of_code(v),
    {
        match v {
            0 => Some(ValueType::Invalid),
            1 => Some(ValueType::Bytes),
            2 => Some(ValueType::String),
            3 => Some(ValueType::Int32),
            4 => Some(ValueType::Int64),
            5 => Some(ValueType::Double),
            6 => Some(ValueType::Float),
            7 => Some(ValueType::Bool),
            8 => Some(ValueType::UnixTimestamp),
            11 => Some(ValueType::BytesList),
            12 => Some(ValueType::StringList),
            13 => Some(ValueType::Int32List),
            14 => Some(ValueType::Int64List),
            15 => Some(ValueType::DoubleList),
            16 => Some(ValueType::FloatList),
            17 => Some(ValueType::BoolList),
            18 => Some(ValueType::UnixTimestampList),
            19 => Some(ValueType::Null),
            20 => Some(ValueType::MapValue),
            21 => Some(ValueType::MapList),
            22 => Some(ValueType::BytesSet),
            23 => Some(ValueType::StringSet),
            24 => Some(ValueType::Int32Set),
            25 => Some(ValueType::Int64Set),
            26 => Some(ValueType::DoubleSet),
            27 => Some(ValueType::FloatSet),
            28 => Some(ValueType::BoolSet),
            29 => Some(ValueType::UnixTimestampSet),
            30 => Some(ValueType::PdfBytes),
            31 => Some(ValueType::ImageBytes),
            32 => Some(ValueType::Json),
            33 => Some(ValueType::JsonList),
            34 => Some(ValueType::Struct),
            35 => Some(ValueType::StructList),
            36 => Some(ValueType::Uuid),
            37 => Some(ValueType::TimeUuid),
            38 => Some(ValueType::UuidList),
            39 => Some(ValueType::TimeUuidList),
            40 => Some(ValueType::UuidSet),
            41 => Some(ValueType::TimeUuidSet),
            42 => Some(ValueType::ValueList),
            43 => Some(ValueType::ValueSet),
            44 => Some(ValueType::Decimal),
            45 => Some(ValueType::DecimalList),
            46 => Some(ValueType::DecimalSet),
            47 => Some(ValueType::ScalarMap),
            48 => Some(ValueType::ZonedTimestamp),
            _ => None,
        }
    }

    /// Whether this is a scalar value type.
    pub fn is_primitive(&self) -> (r: bool)
        ensures
            r == value_type_is_primitive(*self),
    {
        match self {
            ValueType::Invalid
            | ValueType::Bytes
            | ValueType::String
            | ValueType::Int32
            | ValueType::Int64
            | ValueType::Double
            | ValueType::Float
            | ValueType::Bool
            | ValueType::UnixTimestamp
            | ValueType::Null
            | ValueType::PdfBytes
            | ValueType::ImageBytes
            | ValueType::Json
            | ValueType::Uuid
            | ValueType::TimeUuid
            | ValueType::Decimal
            | ValueType::ZonedTimestamp
            | ValueType::ScalarMap
            | ValueType::MapValue => true,
            _ => false,
        }
    }

    /// Whether this is a list value type.
    pub fn is_list(&self) -> (r: bool)
        ensures
            r == value_type_is_list(*self),
    {
        match self {
            ValueType::BytesList
            | ValueType::StringList
            | ValueType::Int32List
            | ValueType::Int64List
            | ValueType::DoubleList
            | ValueType::FloatList
            | ValueType::BoolList
            | ValueType::UnixTimestampList
            | ValueType::JsonList
            | ValueType::StructList
            | ValueType::UuidList
            | ValueType::TimeUuidList
            | ValueType::ValueList
            | ValueType::DecimalList
            | ValueType::MapList => true,
            _ => false,
        }
    }

    /// Whether this is a set value type.
    pub fn is_set(&self) -> (r: bool)
        ensures
            r == value_type_is_set(*self),
    {
        match self {
            ValueType::BytesSet
            | ValueType::StringSet
            | ValueType::Int32Set
            | ValueType::Int64Set
            | ValueType::DoubleSet
            | ValueType::FloatSet
            | ValueType::BoolSet
            | ValueType::UnixTimestampSet
            | ValueType::UuidSet
            | ValueType::TimeUuidSet
            | ValueType::DecimalSet
            | ValueType::ValueSet => true,
            _ => false,
        }
    }

    /// The upper-case display name of this value type (such as `STRING`).
    pub fn as_str(&self) -> (r: &'static str)
        ensures
            r@ == value_type_name(*self),
    {
        match self {
            ValueType::Invalid => "INVALID",
            ValueType::Bytes => "BYTES",
            ValueType::String => "STRING",
            ValueType::Int32 => "INT32",
            ValueType::Int64 => "INT64",
            ValueType::Double => "DOUBLE",
            ValueType::Float => "FLOAT",
            ValueType::Bool => "BOOL",
            ValueType::UnixTimestamp => "UNIX_TIMESTAMP",
            ValueType::BytesList => "BYTES_LIST",
            ValueType::StringList => "STRING_LIST",
            ValueType::Int32List => "INT32_LIST",
            ValueType::Int64List => "INT64_LIST",
            ValueType::DoubleList => "DOUBLE_LIST",
            ValueType::FloatList => "FLOAT_LIST",
            ValueType::BoolList => "BOOL_LIST",
            ValueType::UnixTimestampList => "UNIX_TIMESTAMP_LIST",
            ValueType::Null => "NULL",
            ValueType::MapValue => "MAP",
            ValueType::MapList => "MAP_LIST",
            ValueType::BytesSet => "BYTES_SET",
            ValueType::StringSet => "STRING_SET",
            ValueType::Int32Set => "INT32_SET",
            ValueType::Int64Set => "INT64_SET",
            ValueType::DoubleSet => "DOUBLE_SET",
            ValueType::FloatSet => "FLOAT_SET",
            ValueType::BoolSet => "BOOL_SET",
            ValueType::UnixTimestampSet => "UNIX_TIMESTAMP_SET",
            ValueType::PdfBytes => "PDF_BYTES",
            ValueType::ImageBytes => "IMAGE_BYTES",
            ValueType::Json => "JSON",
            ValueType::JsonList => "JSON_LIST",
            ValueType::Struct => "STRUCT",
            ValueType::StructList => "STRUCT_LIST",
            ValueType::Uuid => "UUID",
            ValueType::TimeUuid => "TIME_UUID",
            ValueType::UuidList => "UUID_LIST",
            ValueType::TimeUuidList => "TIME_UUID_LIST",
            ValueType::UuidSet => "UUID_SET",
            ValueType::TimeUuidSet => "TIME_UUID_SET",
            ValueType::ValueList => "VALUE_LIST",
            ValueType::ValueSet => "VALUE_SET",
            ValueType::Decimal => "DECIMAL",
            ValueType::DecimalList => "DECIMAL_LIST",
            ValueType::DecimalSet => "DECIMAL_SET",
            ValueType::ScalarMap => "SCALAR_MAP",
            ValueType::ZonedTimestamp => "ZONED_TIMESTAMP",
        }
    }

    /// The display name of this value type as an owned string.
    pub fn to_string(&self) -> (r: String)
        ensures
            r@ == value_type_name(*self),
    {
        String::from_str(self.as_str())
    }

    /// Parses a value type name, ignoring case; `FLOAT64` and `FLOAT32` are
    /// accepted for `DOUBLE` and `FLOAT`.
    pub fn parse_name(s: &str) -> (r: Result<Self, String>)
        ensures
            match value_type_of_name(str_to_uppercase_spec(s@)) {
                Some(vt) => r == Ok::<ValueType, String>(vt),
                None => r matches Err(m) && m@ == "Unknown ValueType: "@ + s@,
            },
            is_ascii_text(s@) ==> match value_type_of_name(ascii_upper(s@)) {
                Some(vt) => r == Ok::<ValueType, String>(vt),
                None => r matches Err(m) && m@ == "Unknown ValueType: "@ + s@,
            },
    {
        let upper = str_to_uppercase(s);
        let u = upper.as_str();
        if str_eq(u, "INVALID") {
            return Ok(ValueType::Invalid);
        }
        if str_eq(u, "BYTES") {
            return Ok(ValueType::Bytes);
        }
        if str_eq(u, "STRING") {
            return Ok(ValueType::String);
        }
        if str_eq(u, "INT32") {
            return Ok(ValueType::Int32);
        }
        if str_eq(u, "INT64") {
            return Ok(ValueType::Int64);
        }
        if str_eq(u, "DOUBLE") {
            return Ok(ValueType::Double);
        }
        if str_eq(u, "FLOAT64") {
            return Ok(ValueType::Double);
        }
        if str_eq(u, "FLOAT") {
            return Ok(ValueType::Float);
        }
        if str_eq(u, "FLOAT32") {
            return Ok(ValueType::Float);
        }
        if str_eq(u, "BOOL") {
            return Ok(ValueType::Bool);
        }
        if str_eq(u, "UNIX_TIMESTAMP") {
            return Ok(ValueType::UnixTimestamp);
        }
        if str_eq(u, "BYTES_LIST") {
            return Ok(ValueType::BytesList);
        }
        if str_eq(u, "STRING_LIST") {
            return Ok(ValueType::StringList);
        }
        if str_eq(u, "INT32_LIST") {
            return Ok(ValueType::Int32List);
        }
        if str_eq(u, "INT64_LIST") {
            return Ok(ValueType::Int64List);
        }
        if str_eq(u, "DOUBLE_LIST") {
            return Ok(ValueType::DoubleList);
        }
        if str_eq(u, "FLOAT_LIST") {
            return Ok(ValueType::FloatList);
        }
        if str_eq(u, "BOOL_LIST") {
            return Ok(ValueType::BoolList);
        }
        if str_eq(u, "UNIX_TIMESTAMP_LIST") {
            return Ok(ValueType::UnixTimestampList);
        }
        if str_eq(u, "NULL") {
            return Ok(ValueType::Null);
        }
        if str_eq(u, "MAP") {
            return Ok(ValueType::MapValue);
        }
        if str_eq(u, "MAP_LIST") {
            return Ok(ValueType::MapList);
        }
        if str_eq(u, "BYTES_SET") {
            return Ok(ValueType::BytesSet);
        }
        if str_eq(u, "STRING_SET") {
            return Ok(ValueType::StringSet);
        }
        if str_eq(u, "INT32_SET") {
            return Ok(ValueType::Int32Set);
        }
        if str_eq(u, "INT64_SET") {
            return Ok(ValueType::Int64Set);
        }
        if str_eq(u, "DOUBLE_SET") {
            return Ok(ValueType::DoubleSet);
        }
        if str_eq(u, "FLOAT_SET") {
            return Ok(ValueType::FloatSet);
        }
        if str_eq(u, "BOOL_SET") {
            return Ok(ValueType::BoolSet);
        }
        if str_eq(u, "UNIX_TIMESTAMP_SET") {
            return Ok(ValueType::UnixTimestampSet);
        }
        if str_eq(u, "JSON") {
            return Ok(ValueType::Json);
        }
        if str_eq(u, "JSON_LIST") {
            return Ok(ValueType::JsonList);
        }
        if str_eq(u, "STRUCT") {
            return Ok(ValueType::Struct);
        }
        if str_eq(u, "STRUCT_LIST") {
            return Ok(ValueType::StructList);
        }
        if str_eq(u, "UUID") {
            return Ok(ValueType::Uuid);
        }
        if str_eq(u, "TIME_UUID") {
            return Ok(ValueType::TimeUuid);
        }
        if str_eq(u, "UUID_LIST") {
            return Ok(ValueType::UuidList);
        }
        if str_eq(u, "TIME_UUID_LIST") {
            return Ok(ValueType::TimeUuidList);
        }
        if str_eq(u, "UUID_SET") {
            return Ok(ValueType::UuidSet);
        }
        if str_eq(u, "TIME_UUID_SET") {
            return Ok(ValueType::TimeUuidSet);
        }
        if str_eq(u, "VALUE_LIST") {
            return Ok(ValueType::ValueList);
        }
        if str_eq(u, "VALUE_SET") {
            return Ok(ValueType::ValueSet);
        }
        if str_eq(u, "DECIMAL") {
            return Ok(ValueType::Decimal);
        }
        if str_eq(u, "DECIMAL_LIST") {
            return Ok(ValueType::DecimalList);
        }
        if str_eq(u, "DECIMAL_SET") {
            return Ok(ValueType::DecimalSet);
        }
        if str_eq(u, "SCALAR_MAP") {
            return Ok(ValueType::ScalarMap);
        }
        if str_eq(u, "ZONED_TIMESTAMP") {
            return Ok(ValueType::ZonedTimestamp);
        }
        let mut m = String::from_str("Unknown ValueType: ");
        m.append(s);
        Err(m)
    }
}

impl std::str::FromStr for ValueType {
    type Err = String;

    fn from_str(s: &str) -> Result<Self, Self::Err> {
        ValueType::parse_name(s)
    }
}

/// Every display name is an upper-case name.
proof fn lemma_value_type_name_upper(vt: ValueType)
    ensures
        is_upper_name(value_type_name(vt)),
{
    match vt {
        ValueType::Invalid => {
            reveal_strlit("INVALID");
        },
        ValueType::Bytes => {
            reveal_strlit("BYTES");
        },
        ValueType::String => {
            reveal_strlit("STRING");
        },
        ValueType::Int32 => {
            reveal_strlit("INT32");
        },
        ValueType::Int64 => {
            reveal_strlit("INT64");
        },
        ValueType::Double => {
            reveal_strlit("DOUBLE");
        },
        ValueType::Float => {
            reveal_strlit("FLOAT");
        },
        ValueType::Bool => {
            reveal_strlit("BOOL");
        },
        ValueType::UnixTimestamp => {
            reveal_strlit("UNIX_TIMESTAMP");
        },
        ValueType::BytesList => {
            reveal_strlit("BYTES_LIST");
        },
        ValueType::StringList => {
            reveal_strlit("STRING_LIST");
        },
        ValueType::Int32List => {
            reveal_strlit("INT32_LIST");
        },
        ValueType::Int64List => {
            reveal_strlit("INT64_LIST");
        },
        ValueType::DoubleList => {
            reveal_strlit("DOUBLE_LIST");
        },
        ValueType::FloatList => {
            reveal_strlit("FLOAT_LIST");
        },
        ValueType::BoolList => {
            reveal_strlit("BOOL_LIST");
        },
        ValueType::UnixTimestampList => {
            reveal_strlit("UNIX_TIMESTAMP_LIST");
        },
        ValueType::Null => {
            reveal_strlit("NULL");
        },
        ValueType::MapValue => {
            reveal_strlit("MAP");
        },
        ValueType::MapList => {
            reveal_strlit("MAP_LIST");
        },
        ValueType::BytesSet => {
            reveal_strlit("BYTES_SET");
        },
        ValueType::StringSet => {
            reveal_strlit("STRING_SET");
        },
        ValueType::Int32Set => {
            reveal_strlit("INT32_SET");
        },
        ValueType::Int64Set => {
            reveal_strlit("INT64_SET");
        },
        ValueType::DoubleSet => {
            reveal_strlit("DOUBLE_SET");
        },
        ValueType::FloatSet => {
            reveal_strlit("FLOAT_SET");
        },
        ValueType::BoolSet => {
            reveal_strlit("BOOL_SET");
        },
        ValueType::UnixTimestampSet => {
            reveal_strlit("UNIX_TIMESTAMP_SET");
        },
        ValueType::PdfBytes => {
            reveal_strlit("PDF_BYTES");
        },
        ValueType::ImageBytes => {
            reveal_strlit("IMAGE_BYTES");
        },
        ValueType::Json => {
            reveal_strlit("JSON");
        },
        ValueType::JsonList => {
            reveal_strlit("JSON_LIST");
        },
        ValueType::Struct => {
            reveal_strlit("STRUCT");
        },
        ValueType::StructList => {
            reveal_strlit("STRUCT_LIST");
        },
        ValueType::Uuid => {
            reveal_strlit("UUID");
        },
        ValueType::TimeUuid => {
            reveal_strlit("TIME_UUID");
        },
        ValueType::UuidList => {
            reveal_strlit("UUID_LIST");
        },
        ValueType::TimeUuidList => {
            reveal_strlit("TIME_UUID_LIST");
        },
        ValueType::UuidSet => {
            reveal_strlit("UUID_SET");
        },
        ValueType::TimeUuidSet => {
            reveal_strlit("TIME_UUID_SET");
        },
        ValueType::ValueList => {
            reveal_strlit("VALUE_LIST");
        },
        ValueType::ValueSet => {
            reveal_strlit("VALUE_SET");
        },
        ValueType::Decimal => {
            reveal_strlit("DECIMAL");
        },
        ValueType::DecimalList => {
            reveal_strlit("DECIMAL_LIST");
        },
        ValueType::DecimalSet => {
            reveal_strlit("DECIMAL_SET");
        },
        ValueType::ScalarMap => {
            reveal_strlit("SCALAR_MAP");
        },
        ValueType::ZonedTimestamp => {
            reveal_strlit("ZONED_TIMESTAMP");
        },
    }
}

/// A value type's display name, and its lower-case form, parse back to the
/// value type, for every value type that parsing knows (all but `PDF_BYTES`
/// and `IMAGE_BYTES`); both forms are ASCII, so `parse_name` reads them
/// through ASCII upper-casing.
#[verifier::rlimit(50)]
pub proof fn lemma_value_type_name_roundtrip(vt: ValueType)
    requires
        vt != ValueType::PdfBytes,
        vt != ValueType::ImageBytes,
    ensures
        is_ascii_text(value_type_name(vt)),
        is_ascii_text(ascii_lower(value_type_name(vt))),
        value_type_of_name(ascii_upper(value_type_name(vt))) == Some(vt),
        value_type_of_name(ascii_upper(ascii_lower(value_type_name(vt)))) == Some(vt),
{
    lemma_value_type_name_upper(vt);
    lemma_upper_name_case(value_type_name(vt));
    reveal_strlit("BOOL");
    reveal_strlit("BOOL_LIST");
    reveal_strlit("BOOL_SET");
    reveal_strlit("BYTES");
    reveal_strlit("BYTES_LIST");
    reveal_strlit("BYTES_SET");
    reveal_strlit("DECIMAL");
    reveal_strlit("DECIMAL_LIST");
    reveal_strlit("DECIMAL_SET");
    reveal_strlit("DOUBLE");
    reveal_strlit("DOUBLE_LIST");
    reveal_strlit("DOUBLE_SET");
    reveal_strlit("FLOAT");
    reveal_strlit("FLOAT32");
    reveal_strlit("FLOAT64");
    reveal_strlit("FLOAT_LIST");
    reveal_strlit("FLOAT_SET");
    reveal_strlit("INT32");
    reveal_strlit("INT32_LIST");
    reveal_strlit("INT32_SET");
    reveal_strlit("INT64");
    reveal_strlit("INT64_LIST");
    reveal_strlit("INT64_SET");
    reveal_strlit("INVALID");
    reveal_strlit("JSON");
    reveal_strlit("JSON_LIST");
    reveal_strlit("MAP");
    reveal_strlit("MAP_LIST");
    reveal_strlit("NULL");
    reveal_strlit("SCALAR_MAP");
    reveal_strlit("STRING");
    reveal_strlit("STRING_LIST");
    reveal_strlit("STRING_SET");
    reveal_strlit("STRUCT");
    reveal_strlit("STRUCT_LIST");
    reveal_strlit("TIME_UUID");
    reveal_strlit("TIME_UUID_LIST");
    reveal_strlit("TIME_UUID_SET");
    reveal_strlit("UNIX_TIMESTAMP");
    reveal_strlit("UNIX_TIMESTAMP_LIST");
    reveal_strlit("UNIX_TIMESTAMP_SET");
    reveal_strlit("UUID");
    reveal_strlit("UUID_LIST");
    reveal_strlit("UUID_SET");
    reveal_strlit("VALUE_LIST");
    reveal_strlit("VALUE_SET");
    reveal_strlit("ZONED_TIMESTAMP");
    match vt {
        ValueType::Invalid => assert(value_type_of_name("INVALID"@) == Some(ValueType::Invalid)),
        ValueType::Bytes => assert(value_type_of_name("BYTES"@) == Some(ValueType::Bytes)),
        ValueType::String => assert(value_type_of_name("STRING"@) == Some(ValueType::String)),
        ValueType::Int32 => {
            assert("INT32"@[0] != "BYTES"@[0]);
            assert(value_type_of_name("INT32"@) == Some(ValueType::Int32));
        },
        ValueType::Int64 => {
            assert("INT64"@[0] != "BYTES"@[0]);
            assert("INT64"@[3] != "INT32"@[3]);
            assert(value_type_of_name("INT64"@) == Some(ValueType::Int64));
        },
        ValueType::Double => {
            assert("DOUBLE"@[0] != "STRING"@[0]);
            assert(value_type_of_name("DOUBLE"@) == Some(ValueType::Double));
        },
        ValueType::Float => {
            assert("FLOAT"@[0] != "BYTES"@[0]);
            assert("FLOAT"@[0] != "INT32"@[0]);
            assert("FLOAT"@[0] != "INT64"@[0]);
            assert(value_type_of_name("FLOAT"@) == Some(ValueType::Float));
        },
        ValueType::Bool => assert(value_type_of_name("BOOL"@) == Some(ValueType::Bool)),
        ValueType::UnixTimestamp => assert(value_type_of_name("UNIX_TIMESTAMP"@) == Some(ValueType::UnixTimestamp)),
        ValueType::BytesList => assert(value_type_of_name("BYTES_LIST"@) == Some(ValueType::BytesList)),
        ValueType::StringList => assert(value_type_of_name("STRING_LIST"@) == Some(ValueType::StringList)),
        ValueType::Int32List => {
            assert("INT32_LIST"@[0] != "BYTES_LIST"@[0]);
            assert(value_type_of_name("INT32_LIST"@) == Some(ValueType::Int32List));
        },
        ValueType::Int64List => {
            assert("INT64_LIST"@[0] != "BYTES_LIST"@[0]);
            assert("INT64_LIST"@[3] != "INT32_LIST"@[3]);
            assert(value_type_of_name("INT64_LIST"@) == Some(ValueType::Int64List));
        },
        ValueType::DoubleList => {
            assert("DOUBLE_LIST"@[0] != "STRING_LIST"@[0]);
            assert(value_type_of_name("DOUBLE_LIST"@) == Some(ValueType::DoubleList));
        },
        ValueType::FloatList => {
            assert("FLOAT_LIST"@[0] != "BYTES_LIST"@[0]);
            assert("FLOAT_LIST"@[0] != "INT32_LIST"@[0]);
            assert("FLOAT_LIST"@[0] != "INT64_LIST"@[0]);
            assert(value_type_of_name("FLOAT_LIST"@) == Some(ValueType::FloatList));
        },
        ValueType::BoolList => assert(value_type_of_name("BOOL_LIST"@) == Some(ValueType::BoolList)),
        ValueType::UnixTimestampList => assert(value_type_of_name("UNIX_TIMESTAMP_LIST"@) == Some(ValueType::UnixTimestampList)),
        ValueType::Null => {
            assert("NULL"@[0] != "BOOL"@[0]);
            assert(value_type_of_name("NULL"@) == Some(ValueType::Null));
        },
        ValueType::MapValue => assert(value_type_of_name("MAP"@) == Some(ValueType::MapValue)),
        ValueType::MapList => assert(value_type_of_name("MAP_LIST"@) == Some(ValueType::MapList)),
        ValueType::BytesSet => {
            assert("BYTES_SET"@[1] != "BOOL_LIST"@[1]);
            assert(value_type_of_name("BYTES_SET"@) == Some(ValueType::BytesSet));
        },
        ValueType::StringSet => {
            assert("STRING_SET"@[0] != "BYTES_LIST"@[0]);
            assert("STRING_SET"@[0] != "INT32_LIST"@[0]);
            assert("STRING_SET"@[0] != "INT64_LIST"@[0]);
            assert("STRING_SET"@[0] != "FLOAT_LIST"@[0]);
            assert(value_type_of_name("STRING_SET"@) == Some(ValueType::StringSet));
        },
        ValueType::Int32Set => {
            assert("INT32_SET"@[0] != "BOOL_LIST"@[0]);
            assert("INT32_SET"@[0] != "BYTES_SET"@[0]);
            assert(value_type_of_name("INT32_SET"@) == Some(ValueType::Int32Set));
        },
        ValueType::Int64Set => {
            assert("INT64_SET"@[0] != "BOOL_LIST"@[0]);
            assert("INT64_SET"@[0] != "BYTES_SET"@[0]);
            assert("INT64_SET"@[3] != "INT32_SET"@[3]);
            assert(value_type_of_name("INT64_SET"@) == Some(ValueType::Int64Set));
        },
        ValueType::DoubleSet => {
            assert("DOUBLE_SET"@[0] != "BYTES_LIST"@[0]);
            assert("DOUBLE_SET"@[0] != "INT32_LIST"@[0]);
            assert("DOUBLE_SET"@[0] != "INT64_LIST"@[0]);
            assert("DOUBLE_SET"@[0] != "FLOAT_LIST"@[0]);
            assert("DOUBLE_SET"@[0] != "STRING_SET"@[0]);
            assert(value_type_of_name("DOUBLE_SET"@) == Some(ValueType::DoubleSet));
        },
        ValueType::FloatSet => {
            assert("FLOAT_SET"@[0] != "BOOL_LIST"@[0]);
            assert("FLOAT_SET"@[0] != "BYTES_SET"@[0]);
            assert("FLOAT_SET"@[0] != "INT32_SET"@[0]);
            assert("FLOAT_SET"@[0] != "INT64_SET"@[0]);
            assert(value_type_of_name("FLOAT_SET"@) == Some(ValueType::FloatSet));
        },
        ValueType::BoolSet => {
            assert("BOOL_SET"@[0] != "MAP_LIST"@[0]);
            assert(value_type_of_name("BOOL_SET"@) == Some(ValueType::BoolSet));
        },
        ValueType::UnixTimestampSet => assert(value_type_of_name("UNIX_TIMESTAMP_SET"@) == Some(ValueType::UnixTimestampSet)),
        ValueType::Json => {
            assert("JSON"@[0] != "BOOL"@[0]);
            assert("JSON"@[0] != "NULL"@[0]);
            assert(value_type_of_name("JSON"@) == Some(ValueType::Json));
        },
        ValueType::JsonList => {
            assert("JSON_LIST"@[0] != "BOOL_LIST"@[0]);
            assert("JSON_LIST"@[0] != "BYTES_SET"@[0]);
            assert("JSON_LIST"@[0] != "INT32_SET"@[0]);
            assert("JSON_LIST"@[0] != "INT64_SET"@[0]);
            assert("JSON_LIST"@[0] != "FLOAT_SET"@[0]);
            assert(value_type_of_name("JSON_LIST"@) == Some(ValueType::JsonList));
        },
        ValueType::Struct => {
            assert("STRUCT"@[3] != "STRING"@[3]);
            assert("STRUCT"@[0] != "DOUBLE"@[0]);
            assert(value_type_of_name("STRUCT"@) == Some(ValueType::Struct));
        },
        ValueType::StructList => {
            assert("STRUCT_LIST"@[3] != "STRING_LIST"@[3]);
            assert("STRUCT_LIST"@[0] != "DOUBLE_LIST"@[0]);
            assert(value_type_of_name("STRUCT_LIST"@) == Some(ValueType::StructList));
        },
        ValueType::Uuid => {
            assert("UUID"@[0] != "BOOL"@[0]);
            assert("UUID"@[0] != "NULL"@[0]);
            assert("UUID"@[0] != "JSON"@[0]);
            assert(value_type_of_name("UUID"@) == Some(ValueType::Uuid));
        },
        ValueType::TimeUuid => {
            assert("TIME_UUID"@[0] != "BOOL_LIST"@[0]);
            assert("TIME_UUID"@[0] != "BYTES_SET"@[0]);
            assert("TIME_UUID"@[0] != "INT32_SET"@[0]);
            assert("TIME_UUID"@[0] != "INT64_SET"@[0]);
            assert("TIME_UUID"@[0] != "FLOAT_SET"@[0]);
            assert("TIME_UUID"@[0] != "JSON_LIST"@[0]);
            assert(value_type_of_name("TIME_UUID"@) == Some(ValueType::TimeUuid));
        },
        ValueType::UuidList => {
            assert("UUID_LIST"@[0] != "BOOL_LIST"@[0]);
            assert("UUID_LIST"@[0] != "BYTES_SET"@[0]);
            assert("UUID_LIST"@[0] != "INT32_SET"@[0]);
            assert("UUID_LIST"@[0] != "INT64_SET"@[0]);
            assert("UUID_LIST"@[0] != "FLOAT_SET"@[0]);
            assert("UUID_LIST"@[0] != "JSON_LIST"@[0]);
            assert("UUID_LIST"@[0] != "TIME_UUID"@[0]);
            assert(value_type_of_name("UUID_LIST"@) == Some(ValueType::UuidList));
        },
        ValueType::TimeUuidList => {
            assert("TIME_UUID_LIST"@[0] != "UNIX_TIMESTAMP"@[0]);
            assert(value_type_of_name("TIME_UUID_LIST"@) == Some(ValueType::TimeUuidList));
        },
        ValueType::UuidSet => {
            assert("UUID_SET"@[0] != "MAP_LIST"@[0]);
            assert("UUID_SET"@[0] != "BOOL_SET"@[0]);
            assert(value_type_of_name("UUID_SET"@) == Some(ValueType::UuidSet));
        },
        ValueType::TimeUuidSet => assert(value_type_of_name("TIME_UUID_SET"@) == Some(ValueType::TimeUuidSet)),
        ValueType::ValueList => {
            assert("VALUE_LIST"@[0] != "BYTES_LIST"@[0]);
            assert("VALUE_LIST"@[0] != "INT32_LIST"@[0]);
            assert("VALUE_LIST"@[0] != "INT64_LIST"@[0]);
            assert("VALUE_LIST"@[0] != "FLOAT_LIST"@[0]);
            assert("VALUE_LIST"@[0] != "STRING_SET"@[0]);
            assert("VALUE_LIST"@[0] != "DOUBLE_SET"@[0]);
            assert(value_type_of_name("VALUE_LIST"@) == Some(ValueType::ValueList));
        },
        ValueType::ValueSet => {
            assert("VALUE_SET"@[0] != "BOOL_LIST"@[0]);
            assert("VALUE_SET"@[0] != "BYTES_SET"@[0]);
            assert("VALUE_SET"@[0] != "INT32_SET"@[0]);
            assert("VALUE_SET"@[0] != "INT64_SET"@[0]);
            assert("VALUE_SET"@[0] != "FLOAT_SET"@[0]);
            assert("VALUE_SET"@[0] != "JSON_LIST"@[0]);
            assert("VALUE_SET"@[0] != "TIME_UUID"@[0]);
            assert("VALUE_SET"@[0] != "UUID_LIST"@[0]);
            assert(value_type_of_name("VALUE_SET"@) == Some(ValueType::ValueSet));
        },
        ValueType::Decimal => {
            assert("DECIMAL"@[0] != "INVALID"@[0]);
            assert("DECIMAL"@[0] != "FLOAT64"@[0]);
            assert("DECIMAL"@[0] != "FLOAT32"@[0]);
            assert(value_type_of_name("DECIMAL"@) == Some(ValueType::Decimal));
        },
        ValueType::DecimalList => assert(value_type_of_name("DECIMAL_LIST"@) == Some(ValueType::DecimalList)),
        ValueType::DecimalSet => {
            assert("DECIMAL_SET"@[0] != "STRING_LIST"@[0]);
            assert("DECIMAL_SET"@[1] != "DOUBLE_LIST"@[1]);
            assert("DECIMAL_SET"@[0] != "STRUCT_LIST"@[0]);
            assert(value_type_of_name("DECIMAL_SET"@) == Some(ValueType::DecimalSet));
        },
        ValueType::ScalarMap => {
            assert("SCALAR_MAP"@[0] != "BYTES_LIST"@[0]);
            assert("SCALAR_MAP"@[0] != "INT32_LIST"@[0]);
            assert("SCALAR_MAP"@[0] != "INT64_LIST"@[0]);
            assert("SCALAR_MAP"@[0] != "FLOAT_LIST"@[0]);
            assert("SCALAR_MAP"@[1] != "STRING_SET"@[1]);
            assert("SCALAR_MAP"@[0] != "DOUBLE_SET"@[0]);
            assert("SCALAR_MAP"@[0] != "VALUE_LIST"@[0]);
            assert(value_type_of_name("SCALAR_MAP"@) == Some(ValueType::ScalarMap));
        },
        ValueType::ZonedTimestamp => assert(value_type_of_name("ZONED_TIMESTAMP"@) == Some(ValueType::ZonedTimestamp)),
        _ => {},
    }
}

/// Every value type's code maps back to that value type.
pub proof fn lemma_value_type_code_roundtrip(vt: ValueType)
    ensures
        value_type_of_code(value_type_code(vt)) == Some(vt),
{
}

/// A code that denotes a value type is that value type's code.
pub proof fn lemma_value_type_of_code_inverse(v: i32)
    ensures
        value_type_of_code(v) matches Some(vt) ==> value_type_code(vt) == v,
{
}

/// No value type is at once primitive, a list and a set: the three classes
/// are disjoint.
pub proof fn lemma_value_type_classes_disjoint(vt: ValueType)
    ensures
        !(value_type_is_primitive(vt) && value_type_is_list(vt)),
        !(value_type_is_primitive(vt) && value_type_is_set(vt)),
        !(value_type_is_list(vt) && value_type_is_set(vt)),
{
}

/// The primitive element types of the Feast type system.
#[derive(Debug, Clone, Copy, PartialEq, Eq, Structural)]
pub enum PrimitiveFeastType {
    Invalid,
    String,
    Bytes,
    Bool,
    Int32,
    Int64,
    Float32,
    Float64,
    UnixTimestamp,
    Json,
    Uuid,
    TimeUuid,
    Decimal,
    ScalarMap,
    ZonedTimestamp,
}

/// A Feast type: a primitive, an array or set of a Feast type, or a struct of
/// named Feast types.
#[derive(Debug, PartialEq, Eq)]
pub enum FeastType {
    Primitive(PrimitiveFeastType),
    Array(Box<FeastType>),
    SetOf(Box<FeastType>),
    Struct(Vec<(String, FeastType)>),
}

/// `ft` is a struct type with no fields.
pub open spec fn is_empty_struct(ft: FeastType) -> bool {
    ft matches FeastType::Struct(fields) && fields@.len() == 0
}

/// `ft` is the Feast type that `FeastType::from_value_type` gives for `vt`.
pub open spec fn is_feast_type_of(vt: ValueType, ft: FeastType) -> bool {
    match vt {
        ValueType::Invalid => ft == FeastType::Primitive(PrimitiveFeastType::Invalid),
        ValueType::String => ft == FeastType::Primitive(PrimitiveFeastType::String),
        ValueType::Bytes => ft == FeastType::Primitive(PrimitiveFeastType::Bytes),
        ValueType::Bool => ft == FeastType::Primitive(PrimitiveFeastType::Bool),
        ValueType::Int32 => ft == FeastType::Primitive(PrimitiveFeastType::Int32),
        ValueType::Int64 => ft == FeastType::Primitive(PrimitiveFeastType::Int64),
        ValueType::Float => ft == FeastType::Primitive(PrimitiveFeastType::Float32),
        ValueType::Double => ft == FeastType::Primitive(PrimitiveFeastType::Float64),
        ValueType::UnixTimestamp => ft == FeastType::Primitive(PrimitiveFeastType::UnixTimestamp),
        ValueType::Json => ft == FeastType::Primitive(PrimitiveFeastType::Json),
        ValueType::Uuid => ft == FeastType::Primitive(PrimitiveFeastType::Uuid),
        ValueType::TimeUuid => ft == FeastType::Primitive(PrimitiveFeastType::TimeUuid),
        ValueType::Decimal => ft == FeastType::Primitive(PrimitiveFeastType::Decimal),
        ValueType::ScalarMap => ft == FeastType::Primitive(PrimitiveFeastType::ScalarMap),
        ValueType::ZonedTimestamp => ft == FeastType::Primitive(PrimitiveFeastType::ZonedTimestamp),
        ValueType::Null => ft == FeastType::Primitive(PrimitiveFeastType::Invalid),
        ValueType::BytesList => ft == FeastType::Array(Box::new(FeastType::Primitive(PrimitiveFeastType::Bytes))),
        ValueType::StringList => ft == FeastType::Array(Box::new(FeastType::Primitive(PrimitiveFeastType::String))),
        ValueType::Int32List => ft == FeastType::Array(Box::new(FeastType::Primitive(PrimitiveFeastType::Int32))),
        ValueType::Int64List => ft == FeastType::Array(Box::new(FeastType::Primitive(PrimitiveFeastType::Int64))),
        ValueType::DoubleList => ft == FeastType::Array(Box::new(FeastType::Primitive(PrimitiveFeastType::Float64))),
        ValueType::FloatList => ft == FeastType::Array(Box::new(FeastType::Primitive(PrimitiveFeastType::Float32))),
        ValueType::BoolList => ft == FeastType::Array(Box::new(FeastType::Primitive(PrimitiveFeastType::Bool))),
        ValueType::UnixTimestampList => ft == FeastType::Array(Box::new(FeastType::Primitive(PrimitiveFeastType::UnixTimestamp))),
        ValueType::JsonList => ft == FeastType::Array(Box::new(FeastType::Primitive(PrimitiveFeastType::Json))),
        ValueType::UuidList => ft == FeastType::Array(Box::new(FeastType::Primitive(PrimitiveFeastType::Uuid))),
        ValueType::TimeUuidList => ft == FeastType::Array(Box::new(FeastType::Primitive(PrimitiveFeastType::TimeUuid))),
        ValueType::DecimalList => ft == FeastType::Array(Box::new(FeastType::Primitive(PrimitiveFeastType::Decimal))),
        ValueType::MapValue => is_empty_struct(ft),
        ValueType::MapList => ft matches FeastType::Array(inner) && is_empty_struct(*inner),
        ValueType::Struct => is_empty_struct(ft),
        ValueType::StructList => ft matches FeastType::Array(inner) && is_empty_struct(*inner),
        ValueType::BytesSet => ft == FeastType::SetOf(Box::new(FeastType::Primitive(PrimitiveFeastType::Bytes))),
        ValueType::StringSet => ft == FeastType::SetOf(Box::new(FeastType::Primitive(PrimitiveFeastType::String))),
        ValueType::Int32Set => ft == FeastType::SetOf(Box::new(FeastType::Primitive(PrimitiveFeastType::Int32))),
        ValueType::Int64Set => ft == FeastType::SetOf(Box::new(FeastType::Primitive(PrimitiveFeastType::Int64))),
        ValueType::DoubleSet => ft == FeastType::SetOf(Box::new(FeastType::Primitive(PrimitiveFeastType::Float64))),
        ValueType::FloatSet => ft == FeastType::SetOf(Box::new(FeastType::Primitive(PrimitiveFeastType::Float32))),
        ValueType::BoolSet => ft == FeastType::SetOf(Box::new(FeastType::Primitive(PrimitiveFeastType::Bool))),
        ValueType::UnixTimestampSet => ft == FeastType::SetOf(Box::new(FeastType::Primitive(PrimitiveFeastType::UnixTimestamp))),
        ValueType::UuidSet => ft == FeastType::SetOf(Box::new(FeastType::Primitive(PrimitiveFeastType::Uuid))),
        ValueType::TimeUuidSet => ft == FeastType::SetOf(Box::new(FeastType::Primitive(PrimitiveFeastType::TimeUuid))),
        ValueType::DecimalSet => ft == FeastType::SetOf(Box::new(FeastType::Primitive(PrimitiveFeastType::Decimal))),
        ValueType::ValueList => ft == FeastType::Array(Box::new(FeastType::Primitive(PrimitiveFeastType::Invalid))),
        ValueType::ValueSet => ft == FeastType::SetOf(Box::new(FeastType::Primitive(PrimitiveFeastType::Invalid))),
        ValueType::PdfBytes => ft == FeastType::Primitive(PrimitiveFeastType::Bytes),
        ValueType::ImageBytes => ft == FeastType::Primitive(PrimitiveFeastType::Bytes),
    }
}

/// The value type of a primitive Feast type.
pub open spec fn primitive_value_type(p: PrimitiveFeastType) -> ValueType {
    match p {
        PrimitiveFeastType::Invalid => ValueType::Invalid,
        PrimitiveFeastType::String => ValueType::String,
        PrimitiveFeastType::Bytes => ValueType::Bytes,
        PrimitiveFeastType::Bool => ValueType::Bool,
        PrimitiveFeastType::Int32 => ValueType::Int32,
        PrimitiveFeastType::Int64 => ValueType::Int64,
        PrimitiveFeastType::Float32 => ValueType::Float,
        PrimitiveFeastType::Float64 => ValueType::Double,
        PrimitiveFeastType::UnixTimestamp => ValueType::UnixTimestamp,
        PrimitiveFeastType::Json => ValueType::Json,
        PrimitiveFeastType::Uuid => ValueType::Uuid,
        PrimitiveFeastType::TimeUuid => ValueType::TimeUuid,
        PrimitiveFeastType::Decimal => ValueType::Decimal,
        PrimitiveFeastType::ScalarMap => ValueType::ScalarMap,
        PrimitiveFeastType::ZonedTimestamp => ValueType::ZonedTimestamp,
    }
}

/// The list value type of an array of a primitive Feast type.
pub open spec fn primitive_list_value_type(p: PrimitiveFeastType) -> ValueType {
    match p {
        PrimitiveFeastType::Bytes => ValueType::BytesList,
        PrimitiveFeastType::String => ValueType::StringList,
        PrimitiveFeastType::Int32 => ValueType::Int32List,
        PrimitiveFeastType::Int64 => ValueType::Int64List,
        PrimitiveFeastType::Float32 => ValueType::FloatList,
        PrimitiveFeastType::Float64 => ValueType::DoubleList,
        PrimitiveFeastType::Bool => ValueType::BoolList,
        PrimitiveFeastType::UnixTimestamp => ValueType::UnixTimestampList,
        PrimitiveFeastType::Json => ValueType::JsonList,
        PrimitiveFeastType::Uuid => ValueType::UuidList,
        PrimitiveFeastType::TimeUuid => ValueType::TimeUuidList,
        PrimitiveFeastType::Decimal => ValueType::DecimalList,
        _ => ValueType::ValueList,
    }
}

/// The set value type of a set of a primitive Feast type.
pub open spec fn primitive_set_value_type(p: PrimitiveFeastType) -> ValueType {
    match p {
        PrimitiveFeastType::Bytes => ValueType::BytesSet,
        PrimitiveFeastType::String => ValueType::StringSet,
        PrimitiveFeastType::Int32 => ValueType::Int32Set,
        PrimitiveFeastType::Int64 => ValueType::Int64Set,
        PrimitiveFeastType::Float32 => ValueType::FloatSet,
        PrimitiveFeastType::Float64 => ValueType::DoubleSet,
        PrimitiveFeastType::Bool => ValueType::BoolSet,
        PrimitiveFeastType::UnixTimestamp => ValueType::UnixTimestampSet,
        PrimitiveFeastType::Uuid => ValueType::UuidSet,
        PrimitiveFeastType::TimeUuid => ValueType::TimeUuidSet,
        PrimitiveFeastType::Decimal => ValueType::DecimalSet,
        _ => ValueType::ValueSet,
    }
}

/// The value type that a Feast type maps to.
pub open spec fn feast_type_value_type(ft: FeastType) -> ValueType {
    match ft {
        FeastType::Primitive(p) => primitive_value_type(p),
        FeastType::Array(inner) => match *inner {
            FeastType::Primitive(p) => primitive_list_value_type(p),
            FeastType::Struct(_) => ValueType::StructList,
            _ => ValueType::ValueList,
        },
        FeastType::SetOf(inner) => match *inner {
            FeastType::Primitive(p) => primitive_set_value_type(p),
            _ => ValueType::ValueSet,
        },
        FeastType::Struct(_) => ValueType::Struct,
    }
}

impl Clone for FeastType {
    fn clone(&self) -> (r: Self)
        decreases self,
    {
        match self {
            FeastType::Primitive(p) => FeastType::Primitive(*p),
            FeastType::Array(inner) => FeastType::Array(Box::new((&**inner).clone())),
            FeastType::SetOf(inner) => FeastType::SetOf(Box::new((&**inner).clone())),
            FeastType::Struct(fields) => {
                proof {
                    assert(decreases_to!(*self => (*self)->Struct_0));
                }
                let mut out: Vec<(String, FeastType)> = Vec::new();
                let mut i: usize = 0;
                while i < fields.len()
                    invariant
                        i <= fields@.len(),
                        decreases_to!(*self => *fields),
                    decreases fields@.len() - i,
                {
                    proof {
                        let ghost e = fields@[i as int];
                        assert(decreases_to!(*fields => fields@));
                        assert(decreases_to!(fields@ => e));
                        assert(decreases_to!(e => e.1));
                    }
                    let f = &fields[i];
                    out.push((f.0.clone(), f.1.clone()));
                    i = i + 1;
                }
                FeastType::Struct(out)
            },
        }
    }
}

impl FeastType {
    /// The Feast type of a value type.
    pub fn from_value_type(vt: ValueType) -> (r: Self)
        ensures
            is_feast_type_of(vt, r),
    {
        match vt {
            ValueType::Invalid => FeastType::Primitive(PrimitiveFeastType::Invalid),
            ValueType::String => FeastType::Primitive(PrimitiveFeastType::String),
            ValueType::Bytes => FeastType::Primitive(PrimitiveFeastType::Bytes),
            ValueType::Bool => FeastType::Primitive(PrimitiveFeastType::Bool),
            ValueType::Int32 => FeastType::Primitive(PrimitiveFeastType::Int32),
            ValueType::Int64 => FeastType::Primitive(PrimitiveFeastType::Int64),
            ValueType::Float => FeastType::Primitive(PrimitiveFeastType::Float32),
            ValueType::Double => FeastType::Primitive(PrimitiveFeastType::Float64),
            ValueType::UnixTimestamp => FeastType::Primitive(PrimitiveFeastType::UnixTimestamp),
            ValueType::Json => FeastType::Primitive(PrimitiveFeastType::Json),
            ValueType::Uuid => FeastType::Primitive(PrimitiveFeastType::Uuid),
            ValueType::TimeUuid => FeastType::Primitive(PrimitiveFeastType::TimeUuid),
            ValueType::Decimal => FeastType::Primitive(PrimitiveFeastType::Decimal),
            ValueType::ScalarMap => FeastType::Primitive(PrimitiveFeastType::ScalarMap),
            ValueType::ZonedTimestamp => FeastType::Primitive(PrimitiveFeastType::ZonedTimestamp),
            ValueType::Null => FeastType::Primitive(PrimitiveFeastType::Invalid),
            ValueType::BytesList => FeastType::Array(Box::new(FeastType::Primitive(PrimitiveFeastType::Bytes))),
            ValueType::StringList => FeastType::Array(Box::new(FeastType::Primitive(PrimitiveFeastType::String))),
            ValueType::Int32List => FeastType::Array(Box::new(FeastType::Primitive(PrimitiveFeastType::Int32))),
            ValueType::Int64List => FeastType::Array(Box::new(FeastType::Primitive(PrimitiveFeastType::Int64))),
            ValueType::DoubleList => FeastType::Array(Box::new(FeastType::Primitive(PrimitiveFeastType::Float64))),
            ValueType::FloatList => FeastType::Array(Box::new(FeastType::Primitive(PrimitiveFeastType::Float32))),
            ValueType::BoolList => FeastType::Array(Box::new(FeastType::Primitive(PrimitiveFeastType::Bool))),
            ValueType::UnixTimestampList => FeastType::Array(Box::new(FeastType::Primitive(PrimitiveFeastType::UnixTimestamp))),
            ValueType::JsonList => FeastType::Array(Box::new(FeastType::Primitive(PrimitiveFeastType::Json))),
            ValueType::UuidList => FeastType::Array(Box::new(FeastType::Primitive(PrimitiveFeastType::Uuid))),
            ValueType::TimeUuidList => FeastType::Array(Box::new(FeastType::Primitive(PrimitiveFeastType::TimeUuid))),
            ValueType::DecimalList => FeastType::Array(Box::new(FeastType::Primitive(PrimitiveFeastType::Decimal))),
            ValueType::MapValue => FeastType::Struct(Vec::new()),
            ValueType::MapList => FeastType::Array(Box::new(FeastType::Struct(Vec::new()))),
            ValueType::Struct => FeastType::Struct(Vec::new()),
            ValueType::StructList => FeastType::Array(Box::new(FeastType::Struct(Vec::new()))),
            ValueType::BytesSet => FeastType::SetOf(Box::new(FeastType::Primitive(PrimitiveFeastType::Bytes))),
            ValueType::StringSet => FeastType::SetOf(Box::new(FeastType::Primitive(PrimitiveFeastType::String))),
            ValueType::Int32Set => FeastType::SetOf(Box::new(FeastType::Primitive(PrimitiveFeastType::Int32))),
            ValueType::Int64Set => FeastType::SetOf(Box::new(FeastType::Primitive(PrimitiveFeastType::Int64))),
            ValueType::DoubleSet => FeastType::SetOf(Box::new(FeastType::Primitive(PrimitiveFeastType::Float64))),
            ValueType::FloatSet => FeastType::SetOf(Box::new(FeastType::Primitive(PrimitiveFeastType::Float32))),
            ValueType::BoolSet => FeastType::SetOf(Box::new(FeastType::Primitive(PrimitiveFeastType::Bool))),
            ValueType::UnixTimestampSet => FeastType::SetOf(Box::new(FeastType::Primitive(PrimitiveFeastType::UnixTimestamp))),
            ValueType::UuidSet => FeastType::SetOf(Box::new(FeastType::Primitive(PrimitiveFeastType::Uuid))),
            ValueType::TimeUuidSet => FeastType::SetOf(Box::new(FeastType::Primitive(PrimitiveFeastType::TimeUuid))),
            ValueType::DecimalSet => FeastType::SetOf(Box::new(FeastType::Primitive(PrimitiveFeastType::Decimal))),
            ValueType::ValueList => FeastType::Array(Box::new(FeastType::Primitive(PrimitiveFeastType::Invalid))),
            ValueType::ValueSet => FeastType::SetOf(Box::new(FeastType::Primitive(PrimitiveFeastType::Invalid))),
            ValueType::PdfBytes => FeastType::Primitive(PrimitiveFeastType::Bytes),
            ValueType::ImageBytes => FeastType::Primitive(PrimitiveFeastType::Bytes),
        }
    }

    /// The value type of this Feast type.
    pub fn to_value_type(&self) -> (r: ValueType)
        ensures
            r == feast_type_value_type(*self),
    {
        match self {
            FeastType::Primitive(p) => match p {
                PrimitiveFeastType::Invalid => ValueType::Invalid,
                PrimitiveFeastType::String => ValueType::String,
                PrimitiveFeastType::Bytes => ValueType::Bytes,
                PrimitiveFeastType::Bool => ValueType::Bool,
                PrimitiveFeastType::Int32 => ValueType::Int32,
                PrimitiveFeastType::Int64 => ValueType::Int64,
                PrimitiveFeastType::Float32 => ValueType::Float,
                PrimitiveFeastType::Float64 => ValueType::Double,
                PrimitiveFeastType::UnixTimestamp => ValueType::UnixTimestamp,
                PrimitiveFeastType::Json => ValueType::Json,
                PrimitiveFeastType::Uuid => ValueType::Uuid,
                PrimitiveFeastType::TimeUuid => ValueType::TimeUuid,
                PrimitiveFeastType::Decimal => ValueType::Decimal,
                PrimitiveFeastType::ScalarMap => ValueType::ScalarMap,
                PrimitiveFeastType::ZonedTimestamp => ValueType::ZonedTimestamp,
            },
            FeastType::Array(inner) => match &**inner {
                FeastType::Primitive(p) => match p {
                    PrimitiveFeastType::Bytes => ValueType::BytesList,
                    PrimitiveFeastType::String => ValueType::StringList,
                    PrimitiveFeastType::Int32 => ValueType::Int32List,
                    PrimitiveFeastType::Int64 => ValueType::Int64List,
                    PrimitiveFeastType::Float32 => ValueType::FloatList,
                    PrimitiveFeastType::Float64 => ValueType::DoubleList,
                    PrimitiveFeastType::Bool => ValueType::BoolList,
                    PrimitiveFeastType::UnixTimestamp => ValueType::UnixTimestampList,
                    PrimitiveFeastType::Json => ValueType::JsonList,
                    PrimitiveFeastType::Uuid => ValueType::UuidList,
                    PrimitiveFeastType::TimeUuid => ValueType::TimeUuidList,
                    PrimitiveFeastType::Decimal => ValueType::DecimalList,
                    _ => ValueType::ValueList,
                },
                FeastType::Struct(_) => ValueType::StructList,
                _ => ValueType::ValueList,
            },
            FeastType::SetOf(inner) => match &**inner {
                FeastType::Primitive(p) => match p {
                    PrimitiveFeastType::Bytes => ValueType::BytesSet,
                    PrimitiveFeastType::String => ValueType::StringSet,
                    PrimitiveFeastType::Int32 => ValueType::Int32Set,
                    PrimitiveFeastType::Int64 => ValueType::Int64Set,
                    PrimitiveFeastType::Float32 => ValueType::FloatSet,
                    PrimitiveFeastType::Float64 => ValueType::DoubleSet,
                    PrimitiveFeastType::Bool => ValueType::BoolSet,
                    PrimitiveFeastType::UnixTimestamp => ValueType::UnixTimestampSet,
                    PrimitiveFeastType::Uuid => ValueType::UuidSet,
                    PrimitiveFeastType::TimeUuid => ValueType::TimeUuidSet,
                    PrimitiveFeastType::Decimal => ValueType::DecimalSet,
                    _ => ValueType::ValueSet,
                },
                _ => ValueType::ValueSet,
            },
            FeastType::Struct(_) => ValueType::Struct,
        }
    }
}

/// Converting a value type to its Feast type and back gives the same value
/// type, except for the value types that share a Feast type with another:
/// `Null` (as `Invalid`), `PdfBytes` and `ImageBytes` (as `Bytes`),
/// `MapValue` (as `Struct`) and `MapList` (as `StructList`).
pub proof fn lemma_feast_type_roundtrip(vt: ValueType, ft: FeastType)
    requires
        is_feast_type_of(vt, ft),
        !(vt is Null),
        !(vt is PdfBytes),
        !(vt is ImageBytes),
        !(vt is MapValue),
        !(vt is MapList),
    ensures
        feast_type_value_type(ft) == vt,
{
}

/// An Arrow data type, as far as Feast types map to Arrow.
#[derive(Debug, PartialEq, Eq)]
pub enum ArrowType {
    Null,
    Utf8,
    Binary,
    Boolean,
    Int32,
    Int64,
    Float32,
    Float64,
    /// Timestamps in microseconds in the UTC time zone.
    TimestampMicrosUtc,
    List(Box<ArrowField>),
    Struct(Vec<ArrowField>),
    /// A map of its entries field; the flag tells whether keys are sorted.
    MapOf(Box<ArrowField>, bool),
}

/// A named, typed Arrow field that may or may not hold nulls.
#[derive(Debug, PartialEq, Eq)]
pub struct ArrowField {
    pub name: String,
    pub data_type: ArrowType,
    pub nullable: bool,
}

/// The Arrow type of a primitive Feast type other than the scalar map.
pub open spec fn primitive_arrow(p: PrimitiveFeastType) -> ArrowType {
    match p {
        PrimitiveFeastType::Invalid => ArrowType::Null,
        PrimitiveFeastType::String => ArrowType::Utf8,
        PrimitiveFeastType::Bytes => ArrowType::Binary,
        PrimitiveFeastType::Bool => ArrowType::Boolean,
        PrimitiveFeastType::Int32 => ArrowType::Int32,
        PrimitiveFeastType::Int64 => ArrowType::Int64,
        PrimitiveFeastType::UnixTimestamp => ArrowType::Int64,
        PrimitiveFeastType::Float32 => ArrowType::Float32,
        PrimitiveFeastType::Float64 => ArrowType::Float64,
        PrimitiveFeastType::Json => ArrowType::Utf8,
        PrimitiveFeastType::Uuid => ArrowType::Utf8,
        PrimitiveFeastType::TimeUuid => ArrowType::Utf8,
        PrimitiveFeastType::Decimal => ArrowType::Utf8,
        PrimitiveFeastType::ScalarMap => ArrowType::Null,
        PrimitiveFeastType::ZonedTimestamp => ArrowType::TimestampMicrosUtc,
    }
}

/// The Arrow type of a scalar map: an unsorted map whose non-null
/// `entries` are structs of a non-null text `key` and a nullable text
/// `value`.
pub open spec fn is_scalar_map_arrow(at: ArrowType) -> bool {
    match at {
        ArrowType::MapOf(entries, sorted) => {
            &&& !sorted
            &&& entries.name@ == "entries"@
            &&& !entries.nullable
            &&& match entries.data_type {
                ArrowType::Struct(kv) => {
                    &&& kv@.len() == 2
                    &&& kv@[0].name@ == "key"@
                    &&& kv@[0].data_type is Utf8
                    &&& !kv@[0].nullable
                    &&& kv@[1].name@ == "value"@
                    &&& kv@[1].data_type is Utf8
                    &&& kv@[1].nullable
                },
                _ => false,
            }
        },
        _ => false,
    }
}

/// `at` is the Arrow type of `ft`: primitives by their kind, arrays and sets
/// as lists of a nullable `item` field, structs field by field (each
/// nullable).
pub open spec fn is_arrow_type_of(ft: FeastType, at: ArrowType) -> bool
    decreases ft,
{
    match ft {
        FeastType::Primitive(p) => if p == PrimitiveFeastType::ScalarMap {
            is_scalar_map_arrow(at)
        } else {
            at == primitive_arrow(p)
        },
        FeastType::Array(inner) => match at {
            ArrowType::List(f) => f.name@ == "item"@ && f.nullable && is_arrow_type_of(*inner, f.data_type),
            _ => false,
        },
        FeastType::SetOf(inner) => match at {
            ArrowType::List(f) => f.name@ == "item"@ && f.nullable && is_arrow_type_of(*inner, f.data_type),
            _ => false,
        },
        FeastType::Struct(fields) => match at {
            ArrowType::Struct(afs) => afs@.len() == fields@.len() && fields_arrow_ok(ft, fields@, afs@, 0),
            _ => false,
        },
    }
}

/// The fields of a struct type from position `k` on are given Arrow fields.
pub open spec fn fields_arrow_ok(
    parent: FeastType,
    fields: Seq<(String, FeastType)>,
    afs: Seq<ArrowField>,
    k: int,
) -> bool
    decreases parent, fields.len() - k,
    when parent matches FeastType::Struct(v) && v@ == fields && 0 <= k <= fields.len()
{
    if k >= fields.len() || k >= afs.len() {
        true
    } else {
        proof {
            assert(decreases_to!(parent => parent->Struct_0));
            assert(decreases_to!(parent->Struct_0 => fields));
            assert(decreases_to!(fields => fields[k]));
            assert(decreases_to!(fields[k] => fields[k].1));
        }
        &&& afs[k].name@ == fields[k].0@
        &&& afs[k].nullable
        &&& is_arrow_type_of(fields[k].1, afs[k].data_type)
        &&& fields_arrow_ok(parent, fields, afs, k + 1)
    }
}

fn arrow_field(name: &str, data_type: ArrowType, nullable: bool) -> (r: ArrowField)
    ensures
        r.name@ == name@,
        r.data_type == data_type,
        r.nullable == nullable,
{
    ArrowField { name: String::from_str(name), data_type, nullable }
}

impl FeastType {
    /// The Arrow type of this Feast type.
    pub fn to_arrow_type(&self) -> (r: ArrowType)
        ensures
            is_arrow_type_of(*self, r),
        decreases self,
    {
        match self {
            FeastType::Primitive(p) => match p {
                PrimitiveFeastType::Invalid => ArrowType::Null,
                PrimitiveFeastType::String => ArrowType::Utf8,
                PrimitiveFeastType::Bytes => ArrowType::Binary,
                PrimitiveFeastType::Bool => ArrowType::Boolean,
                PrimitiveFeastType::Int32 => ArrowType::Int32,
                PrimitiveFeastType::Int64 => ArrowType::Int64,
                PrimitiveFeastType::UnixTimestamp => ArrowType::Int64,
                PrimitiveFeastType::Float32 => ArrowType::Float32,
                PrimitiveFeastType::Float64 => ArrowType::Float64,
                PrimitiveFeastType::Json => ArrowType::Utf8,
                PrimitiveFeastType::Uuid => ArrowType::Utf8,
                PrimitiveFeastType::TimeUuid => ArrowType::Utf8,
                PrimitiveFeastType::Decimal => ArrowType::Utf8,
                PrimitiveFeastType::ScalarMap => {
                    let mut kv: Vec<ArrowField> = Vec::new();
                    kv.push(arrow_field("key", ArrowType::Utf8, false));
                    kv.push(arrow_field("value", ArrowType::Utf8, true));
                    let entries = arrow_field("entries", ArrowType::Struct(kv), false);
                    proof {
                        reveal_strlit("key");
                        reveal_strlit("value");
                        reveal_strlit("entries");
                    }
                    ArrowType::MapOf(Box::new(entries), false)
                },
                PrimitiveFeastType::ZonedTimestamp => ArrowType::TimestampMicrosUtc,
            },
            FeastType::Array(inner) => {
                let f = arrow_field("item", (&**inner).to_arrow_type(), true);
                ArrowType::List(Box::new(f))
            },
            FeastType::SetOf(inner) => {
                let f = arrow_field("item", (&**inner).to_arrow_type(), true);
                ArrowType::List(Box::new(f))
            },
            FeastType::Struct(fields) => {
                proof {
                    assert(decreases_to!(*self => (*self)->Struct_0));
                }
                let mut out: Vec<ArrowField> = Vec::new();
                let n = fields.len();
                let mut i: usize = 0;
                while i < n
                    invariant
                        n == fields@.len(),
                        i <= n,
                        decreases_to!(*self => *fields),
                        *self == FeastType::Struct(*fields),
                        out@.len() == i,
                        forall|j: int|
                            0 <= j < i ==> (#[trigger] out@[j]).name@ == fields@[j].0@ && out@[j].nullable
                                && is_arrow_type_of(fields@[j].1, out@[j].data_type),
                    decreases n - i,
                {
                    proof {
                        let ghost e = fields@[i as int];
                        assert(decreases_to!(*fields => fields@));
                        assert(decreases_to!(fields@ => e));
                        assert(decreases_to!(e => e.1));
                    }
                    let f = &fields[i];
                    let at = f.1.to_arrow_type();
                    out.push(arrow_field(f.0.as_str(), at, true));
                    i = i + 1;
                }
                proof {
                    lemma_fields_arrow_ok(*self, fields@, out@, 0);
                }
                ArrowType::Struct(out)
            },
        }
    }
}

/// Fields given Arrow fields one by one satisfy the struct condition.
proof fn lemma_fields_arrow_ok(parent: FeastType, fields: Seq<(String, FeastType)>, afs: Seq<ArrowField>, k: int)
    requires
        parent matches FeastType::Struct(v) && v@ == fields,
        0 <= k <= fields.len(),
        afs.len() == fields.len(),
        forall|j: int|
            0 <= j < fields.len() ==> (#[trigger] afs[j]).name@ == fields[j].0@ && afs[j].nullable
                && is_arrow_type_of(fields[j].1, afs[j].data_type),
    ensures
        fields_arrow_ok(parent, fields, afs, k),
    decreases fields.len() - k,
{
    if k < fields.len() {
        lemma_fields_arrow_ok(parent, fields, afs, k + 1);
    }
}

/// The name of a primitive Feast type.
pub open spec fn primitive_name(p: PrimitiveFeastType) -> Seq<char> {
    match p {
        PrimitiveFeastType::Invalid => "Invalid"@,
        PrimitiveFeastType::String => "String"@,
        PrimitiveFeastType::Bytes => "Bytes"@,
        PrimitiveFeastType::Bool => "Bool"@,
        PrimitiveFeastType::Int32 => "Int32"@,
        PrimitiveFeastType::Int64 => "Int64"@,
        PrimitiveFeastType::Float32 => "Float32"@,
        PrimitiveFeastType::Float64 => "Float64"@,
        PrimitiveFeastType::UnixTimestamp => "UnixTimestamp"@,
        PrimitiveFeastType::Json => "Json"@,
        PrimitiveFeastType::Uuid => "Uuid"@,
        PrimitiveFeastType::TimeUuid => "TimeUuid"@,
        PrimitiveFeastType::Decimal => "Decimal"@,
        PrimitiveFeastType::ScalarMap => "ScalarMap"@,
        PrimitiveFeastType::ZonedTimestamp => "ZonedTimestamp"@,
    }
}

/// The text of a Feast type: primitives by name, `Array<..>`, `Set<..>`, and
/// `Struct<name: type, ..>`.
pub open spec fn feast_type_text(ft: FeastType) -> Seq<char>
    decreases ft,
{
    match ft {
        FeastType::Primitive(p) => primitive_name(p),
        FeastType::Array(inner) => "Array<"@ + feast_type_text(*inner) + ">"@,
        FeastType::SetOf(inner) => "Set<"@ + feast_type_text(*inner) + ">"@,
        FeastType::Struct(fields) => "Struct<"@ + crate::strings::join_spec(field_texts(ft, fields@, 0), ", "@)
            + ">"@,
    }
}

/// The texts `name: type` of the fields of a struct type from position `k`
/// on.
pub open spec fn field_texts(parent: FeastType, fields: Seq<(String, FeastType)>, k: int) -> Seq<Seq<char>>
    decreases parent, fields.len() - k,
    when parent matches FeastType::Struct(v) && v@ == fields && 0 <= k <= fields.len()
{
    if k >= fields.len() {
        Seq::empty()
    } else {
        proof {
            assert(decreases_to!(parent => parent->Struct_0));
            assert(decreases_to!(parent->Struct_0 => fields));
            assert(decreases_to!(fields => fields[k]));
            assert(decreases_to!(fields[k] => fields[k].1));
        }
        seq![fields[k].0@ + ": "@ + feast_type_text(fields[k].1)] + field_texts(parent, fields, k + 1)
    }
}

proof fn lemma_field_texts(parent: FeastType, fields: Seq<(String, FeastType)>, k: int)
    requires
        parent matches FeastType::Struct(v) && v@ == fields,
        0 <= k <= fields.len(),
    ensures
        field_texts(parent, fields, k).len() == fields.len() - k,
        forall|j: int|
            0 <= j < fields.len() - k ==> #[trigger] field_texts(parent, fields, k)[j] == fields[k + j].0@ + ": "@
                + feast_type_text(fields[k + j].1),
    decreases fields.len() - k,
{
    if k < fields.len() {
        lemma_field_texts(parent, fields, k + 1);
        let t = field_texts(parent, fields, k);
        assert forall|j: int| 0 <= j < fields.len() - k implies #[trigger] t[j] == fields[k + j].0@ + ": "@
            + feast_type_text(fields[k + j].1) by {
            if j > 0 {
                assert(t[j] == field_texts(parent, fields, k + 1)[j - 1]);
            }
        }
    }
}

impl PrimitiveFeastType {
    /// The name of this primitive type.
    pub fn name(&self) -> (r: &'static str)
        ensures
            r@ == primitive_name(*self),
    {
        match self {
            PrimitiveFeastType::Invalid => "Invalid",
            PrimitiveFeastType::String => "String",
            PrimitiveFeastType::Bytes => "Bytes",
            PrimitiveFeastType::Bool => "Bool",
            PrimitiveFeastType::Int32 => "Int32",
            PrimitiveFeastType::Int64 => "Int64",
            PrimitiveFeastType::Float32 => "Float32",
            PrimitiveFeastType::Float64 => "Float64",
            PrimitiveFeastType::UnixTimestamp => "UnixTimestamp",
            PrimitiveFeastType::Json => "Json",
            PrimitiveFeastType::Uuid => "Uuid",
            PrimitiveFeastType::TimeUuid => "TimeUuid",
            PrimitiveFeastType::Decimal => "Decimal",
            PrimitiveFeastType::ScalarMap => "ScalarMap",
            PrimitiveFeastType::ZonedTimestamp => "ZonedTimestamp",
        }
    }
}

impl FeastType {
    /// The text of this Feast type.
    pub fn to_string(&self) -> (r: String)
        ensures
            r@ == feast_type_text(*self),
        decreases self,
    {
        match self {
            FeastType::Primitive(p) => String::from_str(p.name()),
            FeastType::Array(inner) => {
                let mut r = String::from_str("Array<");
                r.append((&**inner).to_string().as_str());
                r.append(">");
                r
            },
            FeastType::SetOf(inner) => {
                let mut r = String::from_str("Set<");
                r.append((&**inner).to_string().as_str());
                r.append(">");
                r
            },
            FeastType::Struct(fields) => {
                proof {
                    assert(decreases_to!(*self => (*self)->Struct_0));
                }
                let mut parts: Vec<String> = Vec::new();
                let n = fields.len();
                let mut i: usize = 0;
                while i < n
                    invariant
                        n == fields@.len(),
                        i <= n,
                        decreases_to!(*self => *fields),
                        *self == FeastType::Struct(*fields),
                        parts@.len() == i,
                        forall|j: int|
                            0 <= j < i ==> (#[trigger] parts@[j])@ == fields@[j].0@ + ": "@ + feast_type_text(
                                fields@[j].1,
                            ),
                    decreases n - i,
                {
                    proof {
                        let ghost e = fields@[i as int];
                        assert(decreases_to!(*fields => fields@));
                        assert(decreases_to!(fields@ => e));
                        assert(decreases_to!(e => e.1));
                    }
                    let f = &fields[i];
                    let mut t = f.0.clone();
                    t.append(": ");
                    t.append(f.1.to_string().as_str());
                    parts.push(t);
                    i = i + 1;
                }
                proof {
                    lemma_field_texts(*self, fields@, 0);
                    assert(crate::strings::views(parts@) =~= field_texts(*self, fields@, 0));
                }
                let mut r = String::from_str("Struct<");
                r.append(crate::strings::join_strings(&parts, ", ").as_str());
                r.append(">");
                r
            },
        }
    }
}

/// The value types carry Feast's fixed `ValueType` numbers: each variant's
/// code is its number in Feast's protocol, each of those numbers reads back
/// as that variant, and every other number (below 0, 9, 10, above 48) names
/// no value type.
pub proof fn lemma_value_type_feast_numbers()
    ensures
        value_type_code(ValueType::Invalid) == 0,
        value_type_code(ValueType::Bytes) == 1,
        value_type_code(ValueType::String) == 2,
        value_type_code(ValueType::Int32) == 3,
        value_type_code(ValueType::Int64) == 4,
        value_type_code(ValueType::Double) == 5,
        value_type_code(ValueType::Float) == 6,
        value_type_code(ValueType::Bool) == 7,
        value_type_code(ValueType::UnixTimestamp) == 8,
        value_type_code(ValueType::BytesList) == 11,
        value_type_code(ValueType::StringList) == 12,
        value_type_code(ValueType::Int32List) == 13,
        value_type_code(ValueType::Int64List) == 14,
        value_type_code(ValueType::DoubleList) == 15,
        value_type_code(ValueType::FloatList) == 16,
        value_type_code(ValueType::BoolList) == 17,
        value_type_code(ValueType::UnixTimestampList) == 18,
        value_type_code(ValueType::Null) == 19,
        value_type_code(ValueType::MapValue) == 20,
        value_type_code(ValueType::MapList) == 21,
        value_type_code(ValueType::BytesSet) == 22,
        value_type_code(ValueType::StringSet) == 23,
        value_type_code(ValueType::Int32Set) == 24,
        value_type_code(ValueType::Int64Set) == 25,
        value_type_code(ValueType::DoubleSet) == 26,
        value_type_code(ValueType::FloatSet) == 27,
        value_type_code(ValueType::BoolSet) == 28,
        value_type_code(ValueType::UnixTimestampSet) == 29,
        value_type_code(ValueType::PdfBytes) == 30,
        value_type_code(ValueType::ImageBytes) == 31,
        value_type_code(ValueType::Json) == 32,
        value_type_code(ValueType::JsonList) == 33,
        value_type_code(ValueType::Struct) == 34,
        value_type_code(ValueType::StructList) == 35,
        value_type_code(ValueType::Uuid) == 36,
        value_type_code(ValueType::TimeUuid) == 37,
        value_type_code(ValueType::UuidList) == 38,
        value_type_code(ValueType::TimeUuidList) == 39,
        value_type_code(ValueType::UuidSet) == 40,
        value_type_code(ValueType::TimeUuidSet) == 41,
        value_type_code(ValueType::ValueList) == 42,
        value_type_code(ValueType::ValueSet) == 43,
        value_type_code(ValueType::Decimal) == 44,
        value_type_code(ValueType::DecimalList) == 45,
        value_type_code(ValueType::DecimalSet) == 46,
        value_type_code(ValueType::ScalarMap) == 47,
        value_type_code(ValueType::ZonedTimestamp) == 48,
        value_type_of_code(0) == Some(ValueType::Invalid),
        value_type_of_code(1) == Some(ValueType::Bytes),
        value_type_of_code(2) == Some(ValueType::String),
        value_type_of_code(3) == Some(ValueType::Int32),
        value_type_of_code(4) == Some(ValueType::Int64),
        value_type_of_code(5) == Some(ValueType::Double),
        value_type_of_code(6) == Some(ValueType::Float),
        value_type_of_code(7) == Some(ValueType::Bool),
        value_type_of_code(8) == Some(ValueType::UnixTimestamp),
        value_type_of_code(11) == Some(ValueType::BytesList),
        value_type_of_code(12) == Some(ValueType::StringList),
        value_type_of_code(13) == Some(ValueType::Int32List),
        value_type_of_code(14) == Some(ValueType::Int64List),
        value_type_of_code(15) == Some(ValueType::DoubleList),
        value_type_of_code(16) == Some(ValueType::FloatList),
        value_type_of_code(17) == Some(ValueType::BoolList),
        value_type_of_code(18) == Some(ValueType::UnixTimestampList),
        value_type_of_code(19) == Some(ValueType::Null),
        value_type_of_code(20) == Some(ValueType::MapValue),
        value_type_of_code(21) == Some(ValueType::MapList),
        value_type_of_code(22) == Some(ValueType::BytesSet),
        value_type_of_code(23) == Some(ValueType::StringSet),
        value_type_of_code(24) == Some(ValueType::Int32Set),
        value_type_of_code(25) == Some(ValueType::Int64Set),
        value_type_of_code(26) == Some(ValueType::DoubleSet),
        value_type_of_code(27) == Some(ValueType::FloatSet),
        value_type_of_code(28) == Some(ValueType::BoolSet),
        value_type_of_code(29) == Some(ValueType::UnixTimestampSet),
        value_type_of_code(30) == Some(ValueType::PdfBytes),
        value_type_of_code(31) == Some(ValueType::ImageBytes),
        value_type_of_code(32) == Some(ValueType::Json),
        value_type_of_code(33) == Some(ValueType::JsonList),
        value_type_of_code(34) == Some(ValueType::Struct),
        value_type_of_code(35) == Some(ValueType::StructList),
        value_type_of_code(36) == Some(ValueType::Uuid),
        value_type_of_code(37) == Some(ValueType::TimeUuid),
        value_type_of_code(38) == Some(ValueType::UuidList),
        value_type_of_code(39) == Some(ValueType::TimeUuidList),
        value_type_of_code(40) == Some(ValueType::UuidSet),
        value_type_of_code(41) == Some(ValueType::TimeUuidSet),
        value_type_of_code(42) == Some(ValueType::ValueList),
        value_type_of_code(43) == Some(ValueType::ValueSet),
        value_type_of_code(44) == Some(ValueType::Decimal),
        value_type_of_code(45) == Some(ValueType::DecimalList),
        value_type_of_code(46) == Some(ValueType::DecimalSet),
        value_type_of_code(47) == Some(ValueType::ScalarMap),
        value_type_of_code(48) == Some(ValueType::ZonedTimestamp),
        forall|v: i32| (v < 0 || v == 9 || v == 10 || v > 48) ==> value_type_of_code(v) is None,
{
}

/// Each value type is named by Feast's upper-case name for it.
pub proof fn lemma_value_type_feast_names()
    ensures
        value_type_name(ValueType::Invalid) == "INVALID"@,
        value_type_name(ValueType::Bytes) == "BYTES"@,
        value_type_name(ValueType::String) == "STRING"@,
        value_type_name(ValueType::Int32) == "INT32"@,
        value_type_name(ValueType::Int64) == "INT64"@,
        value_type_name(ValueType::Double) == "DOUBLE"@,
        value_type_name(ValueType::Float) == "FLOAT"@,
        value_type_name(ValueType::Bool) == "BOOL"@,
        value_type_name(ValueType::UnixTimestamp) == "UNIX_TIMESTAMP"@,
        value_type_name(ValueType::BytesList) == "BYTES_LIST"@,
        value_type_name(ValueType::StringList) == "STRING_LIST"@,
        value_type_name(ValueType::Int32List) == "INT32_LIST"@,
        value_type_name(ValueType::Int64List) == "INT64_LIST"@,
        value_type_name(ValueType::DoubleList) == "DOUBLE_LIST"@,
        value_type_name(ValueType::FloatList) == "FLOAT_LIST"@,
        value_type_name(ValueType::BoolList) == "BOOL_LIST"@,
        value_type_name(ValueType::UnixTimestampList) == "UNIX_TIMESTAMP_LIST"@,
        value_type_name(ValueType::Null) == "NULL"@,
        value_type_name(ValueType::MapValue) == "MAP"@,
        value_type_name(ValueType::MapList) == "MAP_LIST"@,
        value_type_name(ValueType::BytesSet) == "BYTES_SET"@,
        value_type_name(ValueType::StringSet) == "STRING_SET"@,
        value_type_name(ValueType::Int32Set) == "INT32_SET"@,
        value_type_name(ValueType::Int64Set) == "INT64_SET"@,
        value_type_name(ValueType::DoubleSet) == "DOUBLE_SET"@,
        value_type_name(ValueType::FloatSet) == "FLOAT_SET"@,
        value_type_name(ValueType::BoolSet) == "BOOL_SET"@,
        value_type_name(ValueType::UnixTimestampSet) == "UNIX_TIMESTAMP_SET"@,
        value_type_name(ValueType::PdfBytes) == "PDF_BYTES"@,
        value_type_name(ValueType::ImageBytes) == "IMAGE_BYTES"@,
        value_type_name(ValueType::Json) == "JSON"@,
        value_type_name(ValueType::JsonList) == "JSON_LIST"@,
        value_type_name(ValueType::Struct) == "STRUCT"@,
        value_type_name(ValueType::StructList) == "STRUCT_LIST"@,
        value_type_name(ValueType::Uuid) == "UUID"@,
        value_type_name(ValueType::TimeUuid) == "TIME_UUID"@,
        value_type_name(ValueType::UuidList) == "UUID_LIST"@,
        value_type_name(ValueType::TimeUuidList) == "TIME_UUID_LIST"@,
        value_type_name(ValueType::UuidSet) == "UUID_SET"@,
        value_type_name(ValueType::TimeUuidSet) == "TIME_UUID_SET"@,
        value_type_name(ValueType::ValueList) == "VALUE_LIST"@,
        value_type_name(ValueType::ValueSet) == "VALUE_SET"@,
        value_type_name(ValueType::Decimal) == "DECIMAL"@,
        value_type_name(ValueType::DecimalList) == "DECIMAL_LIST"@,
        value_type_name(ValueType::DecimalSet) == "DECIMAL_SET"@,
        value_type_name(ValueType::ScalarMap) == "SCALAR_MAP"@,
        value_type_name(ValueType::ZonedTimestamp) == "ZONED_TIMESTAMP"@,
{
}

} // verus!
