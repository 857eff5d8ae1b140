use ofs::audit::{AuditEntry, AuditLogger};
use ofs::time::UtcDateTime;

#[test]
fn test_audit_entry_builder() {
    let entry = AuditEntry::new("req-1", "get_online_features", "my_project")
        .with_entity_key("user:42")
        .with_user("alice")
        .with_features(vec!["feat1".into(), "feat2".into()])
        .with_result("success")
        .with_duration(15);
    assert_eq!(entry.request_id, "req-1");
    assert_eq!(entry.entity_key, Some("user:42".into()));
    assert_eq!(entry.feature_names.len(), 2);
}

#[test]
fn test_audit_logger_noop() {
    let mut logger = AuditLogger::new(None);
    let entry = AuditEntry::new("req-1", "get_online_features", "test");
    let out = logger.log(entry);
    assert!(out.is_empty());
    assert!(logger.flush().is_empty());
}

#[test]
fn audit_logger_hands_back_full_batches() {
    let mut logger = AuditLogger::new(Some("/tmp/audit.log".to_string()));
    let t = UtcDateTime { secs: 0, nanos: 0 };
    for i in 0..99 {
        assert!(logger.log(AuditEntry::new_at(&format!("req-{i}"), "a", "p", t)).is_empty());
    }
    let batch = logger.log(AuditEntry::new_at("req-99", "a", "p", t));
    assert_eq!(batch.len(), 100);
    assert_eq!(batch[0].request_id, "req-0");
    assert_eq!(batch[99].request_id, "req-99");
    let _ = logger.log(AuditEntry::new_at("late", "a", "p", t));
    let rest = logger.flush();
    assert_eq!(rest.len(), 1);
    assert_eq!(rest[0].result, "success");
}
