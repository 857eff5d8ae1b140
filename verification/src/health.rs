//! Health checks: the status of each check, and the overall status of a
//! report.
use vstd::prelude::*;

verus! {

/// The status of a health check. (`Healthy` is the state that is neither
/// degraded nor unavailable.)
#[derive(Debug, Clone, PartialEq, Eq)]
pub enum HealthStatus {
    Healthy,
    Degraded(String),
    Unavailable(String),
}

impl HealthStatus {
    /// Whether the status is healthy.
    pub fn is_healthy(&self) -> (r: bool)
        ensures
            r == (*self is Healthy),
    {
        matches!(self, HealthStatus::Healthy)
    }

    /// Whether the service can take requests: healthy or merely degraded.
    pub fn is_ready(&self) -> (r: bool)
        ensures
            r == !(*self is Unavailable),
    {
        match self {
            HealthStatus::Unavailable(_) => false,
            _ => true,
        }
    }
}

/// The outcome of one named check.
#[derive(Debug, Clone)]
pub struct HealthCheck {
    pub name: &'static str,
    pub status: HealthStatus,
}

impl HealthCheck {
    /// A check outcome.
    pub fn new(name: &'static str, status: HealthStatus) -> (r: Self)
        ensures
            r.name == name,
            r.status == status,
    {
        HealthCheck { name, status }
    }
}

/// The overall status of checks: healthy when all are, unavailable when
/// any is, degraded otherwise.
pub open spec fn overall_status_kind(checks: Seq<HealthCheck>) -> int {
    if forall|i: int| 0 <= i < checks.len() ==> (#[trigger] checks[i]).status is Healthy {
        0
    } else if exists|i: int| 0 <= i < checks.len() && (#[trigger] checks[i]).status is Unavailable {
        2
    } else {
        1
    }
}

/// The version of this library, reported by health reports.
pub const VERSION: &'static str = "0.1.0";

/// The health of the service: the overall status, the checks, how long it
/// has been up, and its version.
#[derive(Debug, Clone)]
pub struct HealthReport {
    pub status: HealthStatus,
    pub checks: Vec<HealthCheck>,
    pub uptime_seconds: u64,
    pub version: &'static str,
}

#[verifier::external_type_specification]
#[verifier::external_body]
pub struct ExInstant(std::time::Instant);

/// Calls `Instant::elapsed` and reads it in whole seconds: the time since
/// `start` by the monotonic clock.
#[verifier::external_body]
fn elapsed_secs(start: &std::time::Instant) -> (r: u64) {
    start.elapsed().as_secs()
}

impl HealthReport {
    /// The report of the checks, up for `uptime_seconds`.
    pub fn with_uptime(checks: Vec<HealthCheck>, uptime_seconds: u64) -> (r: Self)
        ensures
            r.checks@ == checks@,
            r.uptime_seconds == uptime_seconds,
            r.version@ == VERSION@,
            overall_status_kind(checks@) == 0 ==> r.status is Healthy,
            overall_status_kind(checks@) == 1 ==> (r.status matches HealthStatus::Degraded(m) && m@
                == "one or more checks degraded"@),
            overall_status_kind(checks@) == 2 ==> (r.status matches HealthStatus::Unavailable(m) && m@
                == "one or more checks failed"@),
    {
        let n = checks.len();
        let mut all_ok = true;
        let mut any_down = false;
        let mut i: usize = 0;
        while i < n
            invariant
                n == checks@.len(),
                i <= n,
                all_ok == forall|j: int| 0 <= j < i ==> (#[trigger] checks@[j]).status is Healthy,
                any_down == exists|j: int| 0 <= j < i && (#[trigger] checks@[j]).status is Unavailable,
            decreases n - i,
        {
            let ok = checks[i].status.is_healthy();
            let down = !checks[i].status.is_ready();
            proof {
                if !ok {
                    assert(!(checks@[i as int].status is Healthy));
                }
                if down {
                    assert(checks@[i as int].status is Unavailable);
                }
            }
            all_ok = all_ok && ok;
            any_down = any_down || down;
            i = i + 1;
        }
        let status = if all_ok {
            HealthStatus::Healthy
        } else if any_down {
            HealthStatus::Unavailable(String::from_str("one or more checks failed"))
        } else {
            HealthStatus::Degraded(String::from_str("one or more checks degraded"))
        };
        HealthReport { status, checks, uptime_seconds, version: VERSION }
    }

    /// The report of the checks, up since `start_time`.
    pub fn new(checks: Vec<HealthCheck>, start_time: std::time::Instant) -> (r: Self)
        ensures
            r.checks@ == checks@,
            r.version@ == VERSION@,
            overall_status_kind(checks@) == 0 ==> r.status is Healthy,
            overall_status_kind(checks@) == 1 ==> (r.status matches HealthStatus::Degraded(m) && m@
                == "one or more checks degraded"@),
            overall_status_kind(checks@) == 2 ==> (r.status matches HealthStatus::Unavailable(m) && m@
                == "one or more checks failed"@),
    {
        let uptime = elapsed_secs(&start_time);
        Self::with_uptime(checks, uptime)
    }
}

/// Named health checks to run on demand; each check is a function that
/// reports a status.
pub struct HealthRegistry<F> {
    pub checks: Vec<(&'static str, F)>,
}

impl<F: Fn() -> HealthStatus> HealthRegistry<F> {
    /// A registry without checks.
    pub fn new() -> (r: Self)
        ensures
            r.checks@.len() == 0,
    {
        HealthRegistry { checks: Vec::new() }
    }

    /// Adds a named check after those already registered.
    pub fn register(&mut self, name: &'static str, check: F)
        ensures
            final(self).checks@ == old(self).checks@.push((name, check)),
    {
        self.checks.push((name, check));
    }

    /// Runs every check in the order of registration and reports their
    /// outcomes under their names, up since `start_time`.
    pub fn report(&self, start_time: std::time::Instant) -> (r: HealthReport)
        requires
            forall|i: int| 0 <= i < self.checks@.len() ==> call_requires(#[trigger] self.checks@[i].1, ()),
        ensures
            r.checks@.len() == self.checks@.len(),
            forall|i: int|
                0 <= i < self.checks@.len() ==> (#[trigger] r.checks@[i]).name == self.checks@[i].0 && call_ensures(
                    self.checks@[i].1,
                    (),
                    r.checks@[i].status,
                ),
            r.version@ == VERSION@,
            overall_status_kind(r.checks@) == 0 ==> r.status is Healthy,
            overall_status_kind(r.checks@) == 1 ==> (r.status matches HealthStatus::Degraded(m) && m@
                == "one or more checks degraded"@),
            overall_status_kind(r.checks@) == 2 ==> (r.status matches HealthStatus::Unavailable(m) && m@
                == "one or more checks failed"@),
    {
        let n = self.checks.len();
        let mut checks: Vec<HealthCheck> = Vec::new();
        let mut i: usize = 0;
        while i < n
            invariant
                n == self.checks@.len(),
                i <= n,
                checks@.len() == i,
                forall|j: int| 0 <= j < n ==> call_requires(#[trigger] self.checks@[j].1, ()),
                forall|j: int|
                    0 <= j < i ==> (#[trigger] checks@[j]).name == self.checks@[j].0 && call_ensures(
                        self.checks@[j].1,
                        (),
                        checks@[j].status,
                    ),
            decreases n - i,
        {
            let entry = &self.checks[i];
            let status = (entry.1)();
            checks.push(HealthCheck::new(entry.0, status));
            i = i + 1;
        }
        HealthReport::new(checks, start_time)
    }
}

impl<F: Fn() -> HealthStatus> Default for HealthRegistry<F> {
    fn default() -> (r: Self)
        ensures
            r.checks@.len() == 0,
    {
        Self::new()
    }
}

/// The HTTP status of a readiness probe: 200 when the service can take
/// requests, 503 when it cannot.
pub fn readiness_status_code(report: &HealthReport) -> (r: u16)
    ensures
        r == (if report.status is Unavailable { 503u16 } else { 200u16 }),
{
    if report.status.is_ready() {
        200
    } else {
        503
    }
}

/// What the liveness endpoint answers: the service is up, at this version,
/// for this long.
#[derive(Debug, Clone)]
pub struct LivenessSummary {
    pub status: &'static str,
    pub version: &'static str,
    pub uptime_seconds: u64,
}

/// The liveness answer for a report; the endpoint reports `healthy` as long
/// as it answers at all, whatever the checks say.
pub fn liveness_summary(report: &HealthReport) -> (r: LivenessSummary)
    ensures
        r.status@ == "healthy"@,
        r.version == report.version,
        r.uptime_seconds == report.uptime_seconds,
{
    LivenessSummary { status: "healthy", version: report.version, uptime_seconds: report.uptime_seconds }
}

/// What the info endpoint answers about the server.
#[derive(Debug, Clone)]
pub struct ServerInfo {
    pub name: &'static str,
    pub version: &'static str,
    pub description: &'static str,
    pub grpc_api: &'static str,
    pub rest_api_version: &'static str,
}

/// The server's description for the info endpoint.
pub fn server_info() -> (r: ServerInfo)
    ensures
        r.name@ == "openfeaturestore"@,
        r.version@ == VERSION@,
        r.description@ == "Offline+Online Feature Store with point-in-time correctness"@,
        r.grpc_api@ == "feast.serving.ServingService"@,
        r.rest_api_version@ == "v1"@,
{
    ServerInfo {
        name: "openfeaturestore",
        version: VERSION,
        description: "Offline+Online Feature Store with point-in-time correctness",
        grpc_api: "feast.serving.ServingService",
        rest_api_version: "v1",
    }
}

} // verus!
