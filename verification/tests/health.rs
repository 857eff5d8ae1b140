use ofs::health::{HealthCheck, HealthRegistry, HealthReport, HealthStatus, liveness_summary, readiness_status_code, server_info};
use std::time::Instant;

#[test]
fn test_health_status_is_healthy() {
    assert!(HealthStatus::Healthy.is_healthy());
    assert!(!HealthStatus::Degraded("slow".into()).is_healthy());
    assert!(!HealthStatus::Unavailable("down".into()).is_healthy());
}

#[test]
fn test_health_report_all_ok() {
    let start = Instant::now();
    let report = HealthReport::new(vec![HealthCheck::new("test", HealthStatus::Healthy)], start);
    assert_eq!(report.status, HealthStatus::Healthy);
    let _ = report.uptime_seconds;
}

#[test]
fn test_health_report_degraded() {
    let start = Instant::now();
    let report = HealthReport::new(
        vec![
            HealthCheck::new("check1", HealthStatus::Healthy),
            HealthCheck::new("check2", HealthStatus::Degraded("slow".into())),
        ],
        start,
    );
    assert!(matches!(report.status, HealthStatus::Degraded(_)));
    assert!(report.status.is_ready());
}

#[test]
fn test_health_registry() {
    let start = Instant::now();
    let mut registry = HealthRegistry::new();
    registry.register("test", Box::new(|| HealthStatus::Healthy));
    let report = registry.report(start);
    assert_eq!(report.checks.len(), 1);
    assert!(report.status.is_healthy());
}

#[test]
fn report_with_one_unavailable_is_unavailable() {
    let report = HealthReport::with_uptime(
        vec![
            HealthCheck::new("a", HealthStatus::Degraded("slow".into())),
            HealthCheck::new("b", HealthStatus::Unavailable("down".into())),
        ],
        42,
    );
    assert_eq!(report.status, HealthStatus::Unavailable("one or more checks failed".into()));
    assert!(!report.status.is_ready());
    assert_eq!(report.uptime_seconds, 42);
    assert_eq!(report.version, "0.1.0");
}

#[test]
fn registry_runs_checks_in_order() {
    let mut registry: HealthRegistry<Box<dyn Fn() -> HealthStatus>> = HealthRegistry::new();
    registry.register("db", Box::new(|| HealthStatus::Healthy));
    registry.register("cache", Box::new(|| HealthStatus::Degraded("warm-up".into())));
    let report = registry.report(Instant::now());
    assert_eq!(report.checks[0].name, "db");
    assert_eq!(report.checks[1].name, "cache");
    assert_eq!(report.status, HealthStatus::Degraded("one or more checks degraded".into()));
}

#[test]
fn empty_report_is_healthy() {
    let report = HealthReport::with_uptime(Vec::new(), 0);
    assert!(report.status.is_healthy());
}

#[test]
fn readiness_and_liveness_answers() {
    let ok = HealthReport::with_uptime(vec![HealthCheck::new("db", HealthStatus::Healthy)], 12);
    assert_eq!(readiness_status_code(&ok), 200);
    let degraded = HealthReport::with_uptime(vec![HealthCheck::new("db", HealthStatus::Degraded("slow".to_string()))], 1);
    assert_eq!(readiness_status_code(&degraded), 200);
    let down = HealthReport::with_uptime(vec![HealthCheck::new("db", HealthStatus::Unavailable("x".to_string()))], 1);
    assert_eq!(readiness_status_code(&down), 503);
    let live = liveness_summary(&down);
    assert_eq!(live.status, "healthy");
    assert_eq!(live.uptime_seconds, 1);
    let info = server_info();
    assert_eq!(info.name, "openfeaturestore");
    assert_eq!(info.grpc_api, "feast.serving.ServingService");
    assert_eq!(info.rest_api_version, "v1");
}
