//! The run timestamp: when a run's metrics were collected.

use vstd::prelude::*;

verus! {

/// A point in time as the system clock reports it: whole seconds since the
/// Unix epoch together with the nanoseconds since the last second boundary.
#[derive(Clone, Copy, Debug, PartialEq, Eq, Structural)]
pub struct Timestamp {
    secs: i64,
    nanos: u32,
}

impl Timestamp {
    /// The whole seconds since the Unix epoch.
    pub closed spec fn spec_secs(&self) -> i64 {
        self.secs
    }

    /// The nanoseconds since the last second boundary.
    pub closed spec fn spec_nanos(&self) -> u32 {
        self.nanos
    }

    /// The sub-second part stays below two seconds' worth of nanoseconds;
    /// a value of one second or more encodes a leap second.
    pub open spec fn wf(&self) -> bool {
        self.spec_nanos() < 2_000_000_000
    }

    /// What the Unix-epoch form of this timestamp is: its whole seconds.
    pub open spec fn spec_unix(&self) -> i64 {
        self.spec_secs()
    }

    pub fn new(secs: i64, nanos: u32) -> (r: Timestamp)
        requires
            nanos < 2_000_000_000,
        ensures
            r.spec_secs() == secs,
            r.spec_nanos() == nanos,
            r.wf(),
    {
        Timestamp { secs, nanos }
    }

    /// The current time, read from the system clock.
    pub fn now() -> (r: Timestamp)
        ensures
            r.wf(),
    {
        let (secs, nanos) = clock_now();
        Timestamp { secs, nanos }
    }

    /// The timestamp as a Unix-epoch integer.
    pub fn to_unix(&self) -> (r: i64)
        ensures
            r == self.spec_unix(),
    {
        self.secs
    }

    /// The nanoseconds since the last second boundary.
    pub fn subsec_nanos(&self) -> (r: u32)
        ensures
            r == self.spec_nanos(),
    {
        self.nanos
    }
}

/// Relies on chrono's `Utc::now`, read out through `DateTime::timestamp`
/// (non-leap seconds since the Unix epoch) and
/// `DateTime::timestamp_subsec_nanos` (nanoseconds since the last second
/// boundary; chrono keeps it below 2_000_000_000, encoding a leap second
/// as a value of 1_000_000_000 or more).
#[verifier::external_body]
fn clock_now() -> (r: (i64, u32))
    ensures
        r.1 < 2_000_000_000,
{
    let now = chrono::Utc::now();
    (now.timestamp(), now.timestamp_subsec_nanos())
}

} // verus!
