//! Points in time on the UTC time line.
use vstd::prelude::*;

verus! {

/// A UTC instant: whole seconds since 1970-01-01T00:00:00Z and the nanoseconds
/// past that second.
#[derive(Clone, Copy, Debug, PartialEq, Eq, Structural)]
pub struct Timestamp {
    pub secs: i64,
    pub nanos: u32,
}

/// Relies on chrono's `Utc::now`, which reads the system clock, and on
/// `DateTime::timestamp` and `DateTime::timestamp_subsec_nanos` to take it
/// apart. `Utc::now` panics on a clock set before 1970, so any instant that
/// comes back lies after it, and it is built from a `Duration`, whose
/// sub-second part is below one second.
#[verifier::external_body]
pub(crate) fn utc_now() -> (r: Timestamp)
    ensures
        r.secs >= 0,
        r.nanos < 1_000_000_000,
{
    let now = chrono::Utc::now();
    Timestamp { secs: now.timestamp(), nanos: now.timestamp_subsec_nanos() }
}

} // verus!
