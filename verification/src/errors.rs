//! The error type of the feature store.
use vstd::prelude::*;

use crate::strings::{concat_str, debug_string, str_debug_spec};

verus! {

/// An error of a feature store operation. Errors that come from I/O, from
/// protobuf decoding or encoding, from time parsing or from elsewhere carry
/// their message.
#[derive(Debug, Clone)]
pub enum OfsError {
    NotFound(String),
    AlreadyExists(String),
    InvalidArgument(String),
    Serialization(String),
    Database(String),
    DuckDb(String),
    Redis(String),
    Materialization(String),
    Backfill(String),
    InvalidInput(String),
    Auth(String),
    Forbidden(String),
    Io(String),
    Config(String),
    NotImplemented(String),
    Internal(String),
    NoTtlAndNoMaterialization(String),
    ProtoDecode(String),
    ProtoEncode(String),
    ChronoParse(String),
    Other(String),
    InvalidStateTransition { from: String, to: String },
}

/// The message of an error (its `Display` form).
pub open spec fn error_message(e: OfsError) -> Seq<char> {
    match e {
        OfsError::NotFound(s) => "not found: "@ + s@,
        OfsError::AlreadyExists(s) => "already exists: "@ + s@,
        OfsError::InvalidArgument(s) => "invalid argument: "@ + s@,
        OfsError::Serialization(s) => "serialization error: "@ + s@,
        OfsError::Database(s) => "database error: "@ + s@,
        OfsError::DuckDb(s) => "DuckDB error: "@ + s@,
        OfsError::Redis(s) => "Redis error: "@ + s@,
        OfsError::Materialization(s) => "materialization error: "@ + s@,
        OfsError::Backfill(s) => "backfill error: "@ + s@,
        OfsError::InvalidInput(s) => "invalid input: "@ + s@,
        OfsError::Auth(s) => "authentication error: "@ + s@,
        OfsError::Forbidden(s) => "authorization error: "@ + s@,
        OfsError::Io(s) => "IO error: "@ + s@,
        OfsError::Config(s) => "configuration error: "@ + s@,
        OfsError::NotImplemented(s) => "not implemented: "@ + s@,
        OfsError::Internal(s) => "internal error: "@ + s@,
        OfsError::NoTtlAndNoMaterialization(s) => "feature view "@ + s@ + " has no TTL and no prior materialization"@,
        OfsError::ProtoDecode(s) => "protobuf decode error: "@ + s@,
        OfsError::ProtoEncode(s) => "protobuf encode error: "@ + s@,
        OfsError::ChronoParse(s) => "chrono parse error: "@ + s@,
        OfsError::Other(s) => ""@ + s@,
        OfsError::InvalidStateTransition { from, to } => "invalid state transition: from "@
            + str_debug_spec(from@) + " to "@ + str_debug_spec(to@),
    }
}

impl OfsError {
    /// The message of this error.
    pub fn to_string(&self) -> (r: String)
        ensures
            r@ == error_message(*self),
    {
        match self {
            OfsError::NotFound(s) => concat_str("not found: ", s.as_str()),
            OfsError::AlreadyExists(s) => concat_str("already exists: ", s.as_str()),
            OfsError::InvalidArgument(s) => concat_str("invalid argument: ", s.as_str()),
            OfsError::Serialization(s) => concat_str("serialization error: ", s.as_str()),
            OfsError::Database(s) => concat_str("database error: ", s.as_str()),
            OfsError::DuckDb(s) => concat_str("DuckDB error: ", s.as_str()),
            OfsError::Redis(s) => concat_str("Redis error: ", s.as_str()),
            OfsError::Materialization(s) => concat_str("materialization error: ", s.as_str()),
            OfsError::Backfill(s) => concat_str("backfill error: ", s.as_str()),
            OfsError::InvalidInput(s) => concat_str("invalid input: ", s.as_str()),
            OfsError::Auth(s) => concat_str("authentication error: ", s.as_str()),
            OfsError::Forbidden(s) => concat_str("authorization error: ", s.as_str()),
            OfsError::Io(s) => concat_str("IO error: ", s.as_str()),
            OfsError::Config(s) => concat_str("configuration error: ", s.as_str()),
            OfsError::NotImplemented(s) => concat_str("not implemented: ", s.as_str()),
            OfsError::Internal(s) => concat_str("internal error: ", s.as_str()),
            OfsError::NoTtlAndNoMaterialization(s) => {
                let mut m = concat_str("feature view ", s.as_str());
                m.append(" has no TTL and no prior materialization");
                m
            },
            OfsError::ProtoDecode(s) => concat_str("protobuf decode error: ", s.as_str()),
            OfsError::ProtoEncode(s) => concat_str("protobuf encode error: ", s.as_str()),
            OfsError::ChronoParse(s) => concat_str("chrono parse error: ", s.as_str()),
            OfsError::Other(s) => concat_str("", s.as_str()),
            OfsError::InvalidStateTransition { from, to } => {
                let mut m = concat_str("invalid state transition: from ", debug_string(from.as_str()).as_str());
                m.append(" to ");
                m.append(debug_string(to.as_str()).as_str());
                m
            },
        }
    }
}

} // verus!
