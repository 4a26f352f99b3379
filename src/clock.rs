//! Reading the system clock as seconds since the UNIX epoch.
use vstd::prelude::*;
use std::time::{Duration, SystemTime};

verus! {

#[verifier::external_type_specification]
#[verifier::external_body]
pub struct ExSystemTime(SystemTime);

/// Relies on `SystemTime::now` for the current wall-clock time; nothing is
/// known of the value it reads.
pub assume_specification[ SystemTime::now ]() -> SystemTime;

/// Relies on `Duration::as_secs` for the whole seconds of a duration.
pub assume_specification[ Duration::as_secs ](d: &Duration) -> u64;

/// Relies on `SystemTime::duration_since(UNIX_EPOCH)`: the time elapsed since
/// the epoch, or `None` when `t` lies before it.
#[verifier::external_body]
fn since_unix_epoch(t: &SystemTime) -> (r: Option<Duration>) {
    t.duration_since(SystemTime::UNIX_EPOCH).ok()
}

/// The whole seconds since the UNIX epoch on the system clock, or `None` when
/// the clock reads a time before the epoch.
pub(crate) fn seconds_since_epoch() -> (r: Option<u64>) {
    let now = SystemTime::now();
    match since_unix_epoch(&now) {
        Some(d) => Some(d.as_secs()),
        None => None,
    }
}

} // verus!
