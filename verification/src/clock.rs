//! The current time in milliseconds since the Unix epoch.

use vstd::prelude::*;
use std::time::{Duration, SystemTime, SystemTimeError};

verus! {

#[verifier::external_type_specification]
#[verifier::external_body]
pub struct ExSystemTime(SystemTime);

#[verifier::external_type_specification]
#[verifier::external_body]
pub struct ExSystemTimeError(SystemTimeError);

/// `SystemTime::now`: the system clock's reading; nothing is known of it.
#[verifier::external_body]
fn system_time_now() -> (now: SystemTime) {
    SystemTime::now()
}

/// `SystemTime::duration_since(UNIX_EPOCH)`: the time elapsed since the epoch,
/// or an error for a reading before the epoch; the reading is opaque, so
/// nothing is stated of which comes back.
#[verifier::external_body]
fn duration_since_epoch(t: &SystemTime) -> (elapsed: Result<Duration, SystemTimeError>) {
    t.duration_since(std::time::UNIX_EPOCH)
}

/// `Duration::as_secs`: the whole seconds of a duration, which is opaque
/// here, so nothing is stated of the number.
#[verifier::external_body]
fn duration_as_secs(d: &Duration) -> (secs: u64) {
    d.as_secs()
}

/// `Duration::subsec_nanos`: the nanoseconds of a duration beyond its whole
/// seconds, below one billion as std documents it.
#[verifier::external_body]
fn duration_subsec_nanos(d: &Duration) -> (nanos: u32)
    ensures
        nanos < 1_000_000_000,
{
    d.subsec_nanos()
}

/// The whole milliseconds of a duration of `secs` seconds and `subsec_nanos`
/// nanoseconds: the sub-millisecond part is cut, not rounded.
pub fn elapsed_millis(secs: u64, subsec_nanos: u32) -> (millis: u128)
    ensures
        millis == secs * 1000 + subsec_nanos / 1_000_000,
{
    secs as u128 * 1000 + (subsec_nanos / 1_000_000) as u128
}

/// A millisecond count cut to 64 bits, as a timestamp is sent.
pub fn millis_to_timestamp(millis: u128) -> (timestamp: u64)
    ensures
        timestamp == millis as u64,
        millis <= u64::MAX ==> timestamp == millis,
{
    millis as u64
}

/// The timestamp for the time elapsed since the epoch, given as whole seconds
/// and sub-second nanoseconds: its whole milliseconds cut to 64 bits; `None`
/// when the clock stood before the epoch.
pub fn timestamp_from_elapsed(elapsed: Option<(u64, u32)>) -> (timestamp: Option<u64>)
    ensures
        match elapsed {
            Some((secs, nanos)) => timestamp == Some((secs * 1000 + nanos / 1_000_000) as u64),
            None => timestamp is None,
        },
{
    match elapsed {
        Some((secs, nanos)) => Some(millis_to_timestamp(elapsed_millis(secs, nanos))),
        None => None,
    }
}

/// The current time in milliseconds since the Unix epoch, cut to 64 bits;
/// `None` when the system clock reads a time before the epoch. The clock's
/// reading is opaque, so no clause ties the number to the time.
pub fn now_millis() -> (timestamp: Option<u64>) {
    let now = system_time_now();
    let elapsed = match duration_since_epoch(&now) {
        Ok(d) => Some((duration_as_secs(&d), duration_subsec_nanos(&d))),
        Err(_) => None,
    };
    timestamp_from_elapsed(elapsed)
}

} // verus!
