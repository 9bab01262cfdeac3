//! Liveness and readiness replies, derived from the observed health of the
//! database dependency. Readiness is reported in the body, never in the
//! status code: both the ready and the not-ready reply carry status 200.

use vstd::prelude::*;

verus! {

/// Health of the database dependency as observed by a single probe.
/// This value is recomputed for every readiness request and never cached.
#[derive(Clone, Copy, PartialEq, Eq, Structural, Debug)]
pub enum HealthStatus {
    Reachable,
    Unreachable,
}

/// An HTTP reply computed by a handler: a status code and a fixed body.
pub struct Reply {
    pub status: u16,
    pub body: String,
}

pub open spec fn spec_alive_body() -> Seq<char> {
    "{\"status\":\"ok\"}"@
}

pub open spec fn spec_ready_body() -> Seq<char> {
    "{\"status\":\"ready\",\"database\":\"connected\"}"@
}

pub open spec fn spec_not_ready_body() -> Seq<char> {
    "{\"status\":\"not ready\",\"database\":\"disconnected\"}"@
}

pub open spec fn spec_hello_body() -> Seq<char> {
    "Hello, World!"@
}

/// Liveness reply: always status 200 with the fixed body, whatever the
/// state of the database; no dependency is consulted.
pub fn alive_reply() -> (r: Reply)
    ensures
        r.status == 200,
        r.body@ == spec_alive_body(),
{
    Reply { status: 200, body: "{\"status\":\"ok\"}".to_string() }
}

/// What one probe of the database observed: reachable exactly when the
/// probe round-trip succeeded. A failed probe is an expected operating
/// condition, not an error: it is reported as a status, never raised.
pub fn health_status(probe_ok: bool) -> (s: HealthStatus)
    ensures
        s == (if probe_ok {
            HealthStatus::Reachable
        } else {
            HealthStatus::Unreachable
        }),
{
    if probe_ok {
        HealthStatus::Reachable
    } else {
        HealthStatus::Unreachable
    }
}

/// Readiness reply: status 200 whether or not the database is reachable —
/// readiness is communicated in the body alone, and a consumer must parse
/// the body to detect non-readiness.
pub fn ready_reply(health: HealthStatus) -> (r: Reply)
    ensures
        r.status == 200,
        health == HealthStatus::Reachable ==> r.body@ == spec_ready_body(),
        health == HealthStatus::Unreachable ==> r.body@ == spec_not_ready_body(),
{
    match health {
        HealthStatus::Reachable => Reply {
            status: 200,
            body: "{\"status\":\"ready\",\"database\":\"connected\"}".to_string(),
        },
        HealthStatus::Unreachable => Reply {
            status: 200,
            body: "{\"status\":\"not ready\",\"database\":\"disconnected\"}".to_string(),
        },
    }
}

/// Diagnostic reply: a static placeholder that confirms the routing
/// wiring; it carries no dependency semantics.
pub fn hello_reply() -> (r: Reply)
    ensures
        r.status == 200,
        r.body@ == spec_hello_body(),
{
    Reply { status: 200, body: "Hello, World!".to_string() }
}

} // verus!
