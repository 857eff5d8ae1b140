use vstd::prelude::*;

pub mod api_code;
pub mod config;
pub mod errors;
pub mod response;
pub mod validation;
pub mod strings;
pub mod value_type;
pub mod time;
pub mod types;
pub mod entity_key;
pub mod kv;
pub mod source;
pub mod auth;
pub mod rbac;
pub mod proto;
pub mod conversion;
pub mod offline;
pub mod remote;
pub mod remote_cache;
pub mod health;
pub mod backfill;
pub mod lifecycle;
pub mod online;
pub mod cache;
pub mod serving;
pub mod materialization;
pub mod utils;
pub mod audit;
pub mod registry;
pub mod bindings;
pub mod schema;
pub mod grpc;

verus! {
}
