//! Liveness probe of the backend: one bounded connection attempt to a fixed
//! loopback port.

use vstd::prelude::*;

verus! {

/// Port on which the backend answers.
pub const BACKEND_PORT: u16 = 9876;

/// Upper bound, in milliseconds, on one connection attempt.
pub const PROBE_TIMEOUT_MS: u64 = 500;

/// The four octets of an address, most significant first.
#[derive(Clone, Copy, Debug, PartialEq, Eq, Structural)]
pub struct Octets {
    pub first: u8,
    pub second: u8,
    pub third: u8,
    pub fourth: u8,
}

/// Where and for how long to try.
#[derive(Clone, Copy, Debug, PartialEq, Eq, Structural)]
pub struct ProbeTarget {
    pub address: Octets,
    pub port: u16,
    pub timeout_ms: u64,
}

/// How one connection attempt ended.
#[derive(Clone, Copy, Debug, PartialEq, Eq, Structural)]
pub enum ConnectOutcome {
    Connected,
    Refused,
    TimedOut,
    Unreachable,
}

/// The endpoint to probe: loopback, the backend's port, half a second.
pub fn probe_target() -> (t: ProbeTarget)
    ensures
        t.address == (Octets { first: 127, second: 0, third: 0, fourth: 1 }),
        t.port == 9876,
        t.timeout_ms == 500,
{
    ProbeTarget {
        address: Octets { first: 127, second: 0, third: 0, fourth: 1 },
        port: BACKEND_PORT,
        timeout_ms: PROBE_TIMEOUT_MS,
    }
}

/// The backend counts as running exactly when the connection succeeded.
pub open spec fn alive(outcome: ConnectOutcome) -> bool {
    outcome is Connected
}

/// Reads a connection attempt: any failure is a plain "no".
pub fn is_backend_running(outcome: ConnectOutcome) -> (running: bool)
    ensures
        running == alive(outcome),
{
    match outcome {
        ConnectOutcome::Connected => true,
        ConnectOutcome::Refused => false,
        ConnectOutcome::TimedOut => false,
        ConnectOutcome::Unreachable => false,
    }
}

} // verus!
