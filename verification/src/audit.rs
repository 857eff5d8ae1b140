//! Audit records of requests and the buffer that collects them before they
//! are written out.
use vstd::prelude::*;

use crate::time::{utc_now, UtcDateTime};

verus! {

/// What was done for one request: when, its id, the action, the project,
/// the entity and user if known, the features, the result and how long it
/// took.
#[derive(Debug, Clone)]
pub struct AuditEntry {
    pub timestamp: UtcDateTime,
    pub request_id: String,
    pub action: String,
    pub project: String,
    pub entity_key: Option<String>,
    pub user: Option<String>,
    pub feature_names: Vec<String>,
    pub result: String,
    pub duration_ms: u64,
}

impl AuditEntry {
    /// A successful entry of a request at the given time, with no entity,
    /// user or features, taking no time.
    pub fn new_at(request_id: &str, action: &str, project: &str, timestamp: UtcDateTime) -> (r: Self)
        ensures
            r.timestamp == timestamp,
            r.request_id@ == request_id@,
            r.action@ == action@,
            r.project@ == project@,
            r.entity_key is None,
            r.user is None,
            r.feature_names@.len() == 0,
            r.result@ == "success"@,
            r.duration_ms == 0,
    {
        AuditEntry {
            timestamp,
            request_id: String::from_str(request_id),
            action: String::from_str(action),
            project: String::from_str(project),
            entity_key: None,
            user: None,
            feature_names: Vec::new(),
            result: String::from_str("success"),
            duration_ms: 0,
        }
    }

    /// A successful entry of a request made now.
    pub fn new(request_id: &str, action: &str, project: &str) -> (r: Self)
        ensures
            r.request_id@ == request_id@,
            r.action@ == action@,
            r.project@ == project@,
            r.entity_key is None,
            r.user is None,
            r.feature_names@.len() == 0,
            r.result@ == "success"@,
            r.duration_ms == 0,
    {
        Self::new_at(request_id, action, project, utc_now())
    }

    /// The entry with the entity it concerns.
    pub fn with_entity_key(self, key: &str) -> (r: Self)
        ensures
            r == (AuditEntry { entity_key: r.entity_key, ..self }),
            r.entity_key matches Some(k) && k@ == key@,
    {
        AuditEntry { entity_key: Some(String::from_str(key)), ..self }
    }

    /// The entry with the user who made the request.
    pub fn with_user(self, user: &str) -> (r: Self)
        ensures
            r == (AuditEntry { user: r.user, ..self }),
            r.user matches Some(u) && u@ == user@,
    {
        AuditEntry { user: Some(String::from_str(user)), ..self }
    }

    /// The entry with the features asked for.
    pub fn with_features(self, features: Vec<String>) -> (r: Self)
        ensures
            r == (AuditEntry { feature_names: features, ..self }),
    {
        AuditEntry { feature_names: features, ..self }
    }

    /// The entry with the request's result.
    pub fn with_result(self, result: &str) -> (r: Self)
        ensures
            r == (AuditEntry { result: r.result, ..self }),
            r.result@ == result@,
    {
        AuditEntry { result: String::from_str(result), ..self }
    }

    /// The entry with how long the request took.
    pub fn with_duration(self, ms: u64) -> (r: Self)
        ensures
            r == (AuditEntry { duration_ms: ms, ..self }),
    {
        AuditEntry { duration_ms: ms, ..self }
    }
}

/// How many entries are collected before they are written out.
pub const AUDIT_FLUSH_THRESHOLD: usize = 100;

/// Collects audit entries for the log file at `path`; without a path,
/// entries are dropped. Writing the entries out is up to the caller.
pub struct AuditLogger {
    pub path: Option<String>,
    pub buffer: Vec<AuditEntry>,
}

impl AuditLogger {
    /// A logger for the given file (or none), with nothing collected.
    pub fn new(path: Option<String>) -> (r: Self)
        ensures
            r.path == path,
            r.buffer@.len() == 0,
    {
        AuditLogger { path, buffer: Vec::new() }
    }

    /// Collects an entry (when there is a file). Once 100 entries are
    /// collected they are handed back, in order, to be written, and the
    /// buffer is empty again; otherwise nothing is handed back.
    pub fn log(&mut self, entry: AuditEntry) -> (r: Vec<AuditEntry>)
        requires
            old(self).buffer@.len() < AUDIT_FLUSH_THRESHOLD,
        ensures
            final(self).path == old(self).path,
            final(self).buffer@.len() < AUDIT_FLUSH_THRESHOLD,
            old(self).path is None ==> final(self).buffer@ == old(self).buffer@ && r@.len() == 0,
            old(self).path is Some ==> {
                let all = old(self).buffer@.push(entry);
                if all.len() >= AUDIT_FLUSH_THRESHOLD {
                    r@ == all && final(self).buffer@.len() == 0
                } else {
                    r@.len() == 0 && final(self).buffer@ == all
                }
            },
    {
        if self.path.is_none() {
            return Vec::new();
        }
        self.buffer.push(entry);
        if self.buffer.len() >= AUDIT_FLUSH_THRESHOLD {
            let mut out: Vec<AuditEntry> = Vec::new();
            std::mem::swap(&mut out, &mut self.buffer);
            out
        } else {
            Vec::new()
        }
    }

    /// Hands back every collected entry, in order, and empties the buffer.
    pub fn flush(&mut self) -> (r: Vec<AuditEntry>)
        ensures
            final(self).path == old(self).path,
            r@ == old(self).buffer@,
            final(self).buffer@.len() == 0,
    {
        let mut out: Vec<AuditEntry> = Vec::new();
        std::mem::swap(&mut out, &mut self.buffer);
        out
    }
}

} // verus!
