//! The system clock, read relative to the Unix epoch.

use std::time::{Duration, SystemTime, UNIX_EPOCH};
use vstd::prelude::*;

verus! {

#[verifier::external_type_specification]
#[verifier::external_body]
pub struct ExSystemTime(SystemTime);

/// A point in time, counted from the Unix epoch.
#[derive(Debug, Clone, Copy, PartialEq, Eq, Structural)]
pub struct UnixTime {
    /// Whole seconds since the epoch.
    pub secs: u64,
    /// The part of a second beyond `secs`, in nanoseconds.
    pub nanos: u32,
}

impl UnixTime {
    /// The fraction is less than one second.
    pub open spec fn wf(&self) -> bool {
        self.nanos < 1_000_000_000
    }
}

/// Calls `SystemTime::now`.
///
/// Trusted: nothing is claimed of the time that comes back.
#[verifier::external_body]
fn system_now() -> (now: SystemTime) {
    SystemTime::now()
}

/// Calls `SystemTime::duration_since` with `UNIX_EPOCH` as the earlier time.
///
/// Trusted: nothing is claimed of the result; `None` stands for the error
/// that the time lies before the epoch.
#[verifier::external_body]
fn since_epoch(time: &SystemTime) -> (elapsed: Option<Duration>) {
    match time.duration_since(UNIX_EPOCH) {
        Ok(elapsed) => Some(elapsed),
        Err(_) => None,
    }
}

/// Calls `Duration::as_secs`.
///
/// Trusted: nothing is claimed of the number of whole seconds.
#[verifier::external_body]
fn whole_secs(duration: &Duration) -> (secs: u64) {
    duration.as_secs()
}

/// Calls `Duration::subsec_nanos`.
///
/// Trusted: the fractional part is less than one second.
#[verifier::external_body]
fn subsec_nanos(duration: &Duration) -> (nanos: u32)
    ensures
        nanos < 1_000_000_000,
{
    duration.subsec_nanos()
}

/// Reads the system clock. The result is `None` where the clock stands
/// before the Unix epoch.
pub fn read_clock() -> (now: Option<UnixTime>)
    ensures
        now is Some ==> now->0.wf(),
{
    let time = system_now();
    match since_epoch(&time) {
        Some(elapsed) => Some(
            UnixTime { secs: whole_secs(&elapsed), nanos: subsec_nanos(&elapsed) },
        ),
        None => None,
    }
}

} // verus!
