//! Health and readiness probes.
//!
//! The server answers `/healthz` (liveness) and `/readyz` (readiness) with
//! 200 when its health check passes and 503 when it fails or errs; the body
//! is the JSON object `{"status": <word>}`.
use vstd::prelude::*;

verus! {

/// Health-check server configuration.
#[derive(Debug, Clone, Copy, PartialEq, Eq)]
pub struct Config {
    /// Port for the health check server.
    pub port: u16,
}

/// A server that answers health and readiness probes with the outcome of
/// its health checker.
pub struct Server<H> {
    port: u16,
    checker: H,
}

impl<H> Server<H> {
    pub closed spec fn spec_port(&self) -> u16 {
        self.port
    }

    pub closed spec fn spec_checker(&self) -> H {
        self.checker
    }

    /// A server for `port` that asks `checker`.
    pub fn new(port: u16, checker: H) -> (r: Server<H>)
        ensures
            r.spec_port() == port,
            r.spec_checker() == checker,
    {
        Server { port, checker }
    }

    /// The port the server listens on.
    pub fn port(&self) -> (r: u16)
        ensures
            r == self.spec_port(),
    {
        self.port
    }

    /// The health checker.
    pub fn checker(&self) -> (r: &H)
        ensures
            *r == self.spec_checker(),
    {
        &self.checker
    }

    /// Takes the server apart into its port and health checker.
    pub fn into_parts(self) -> (r: (u16, H))
        ensures
            r == (self.spec_port(), self.spec_checker()),
    {
        (self.port, self.checker)
    }
}

/// The two probes.
#[derive(Debug, Clone, Copy, PartialEq, Eq)]
pub enum Probe {
    /// `/healthz`.
    Liveness,
    /// `/readyz`.
    Readiness,
}

/// The status word of a probe answer.
#[derive(Debug, Clone, Copy, PartialEq, Eq)]
pub enum ProbeStatus {
    Healthy,
    Unhealthy,
    Ready,
    Unready,
}

impl ProbeStatus {
    /// The word as it appears in the answer body.
    pub fn as_str(&self) -> (r: &'static str)
        ensures
            r@ == spec_status_word(*self),
    {
        match self {
            ProbeStatus::Healthy => "HEALTHY",
            ProbeStatus::Unhealthy => "UNHEALTHY",
            ProbeStatus::Ready => "READY",
            ProbeStatus::Unready => "UNREADY",
        }
    }
}

pub open spec fn spec_status_word(s: ProbeStatus) -> Seq<char> {
    match s {
        ProbeStatus::Healthy => "HEALTHY"@,
        ProbeStatus::Unhealthy => "UNHEALTHY"@,
        ProbeStatus::Ready => "READY"@,
        ProbeStatus::Unready => "UNREADY"@,
    }
}

/// HTTP 200.
pub const STATUS_OK: u16 = 200;

/// HTTP 503.
pub const STATUS_SERVICE_UNAVAILABLE: u16 = 503;

/// The answer to a probe: HTTP status code and status word.
#[derive(Debug, Clone, Copy, PartialEq, Eq)]
pub struct ProbeResponse {
    pub status_code: u16,
    pub status: ProbeStatus,
}

/// The health check passed: it returned `Ok(true)`.
pub open spec fn check_passed<E>(health: Result<bool, E>) -> bool {
    health matches Ok(true)
}

/// The answer to `probe` given what the health check returned: 200 with
/// HEALTHY or READY when the check returned `Ok(true)`; 503 with UNHEALTHY
/// or UNREADY when it returned `Ok(false)` or an error.
pub fn probe_response<E>(probe: Probe, health: &Result<bool, E>) -> (r: ProbeResponse)
    ensures
        r == probe_response_spec(probe, check_passed(*health)),
{
    let passed = match health {
        Ok(true) => true,
        _ => false,
    };
    match (probe, passed) {
        (Probe::Liveness, true) => ProbeResponse { status_code: STATUS_OK, status: ProbeStatus::Healthy },
        (Probe::Liveness, false) => ProbeResponse {
            status_code: STATUS_SERVICE_UNAVAILABLE,
            status: ProbeStatus::Unhealthy,
        },
        (Probe::Readiness, true) => ProbeResponse { status_code: STATUS_OK, status: ProbeStatus::Ready },
        (Probe::Readiness, false) => ProbeResponse {
            status_code: STATUS_SERVICE_UNAVAILABLE,
            status: ProbeStatus::Unready,
        },
    }
}

/// The `/healthz` answer.
pub fn handle_healthz<E>(health: &Result<bool, E>) -> (r: ProbeResponse)
    ensures
        r == probe_response_spec(Probe::Liveness, check_passed(*health)),
{
    probe_response(Probe::Liveness, health)
}

/// The `/readyz` answer.
pub fn handle_readyz<E>(health: &Result<bool, E>) -> (r: ProbeResponse)
    ensures
        r == probe_response_spec(Probe::Readiness, check_passed(*health)),
{
    probe_response(Probe::Readiness, health)
}

/// The answer to `probe` when the check passed or not.
pub open spec fn probe_response_spec(probe: Probe, passed: bool) -> ProbeResponse {
    ProbeResponse {
        status_code: if passed { STATUS_OK } else { STATUS_SERVICE_UNAVAILABLE },
        status: match (probe, passed) {
            (Probe::Liveness, true) => ProbeStatus::Healthy,
            (Probe::Liveness, false) => ProbeStatus::Unhealthy,
            (Probe::Readiness, true) => ProbeStatus::Ready,
            (Probe::Readiness, false) => ProbeStatus::Unready,
        },
    }
}

/// Both probes agree: each answers 200 exactly when the
/// other does, and that is exactly when the health check returned
/// `Ok(true)`.
pub proof fn lemma_probes_agree(passed: bool)
    ensures
        probe_response_spec(Probe::Liveness, passed).status_code == probe_response_spec(Probe::Readiness, passed).status_code,
        probe_response_spec(Probe::Liveness, passed).status_code == STATUS_OK <==> passed,
{
}

} // verus!
