//! The clock: wall-clock readings for the random verse and monotonic
//! instants for debouncing and transient messages. Nothing is claimed of
//! what the clock reads.
use vstd::prelude::*;
use std::time::{Duration, Instant, SystemTime, SystemTimeError};

verus! {

/// `std::time::SystemTime`, carried through opaquely.
#[verifier::external_type_specification]
#[verifier::external_body]
pub struct ExSystemTime(SystemTime);

/// `std::time::SystemTimeError`, carried through opaquely.
#[verifier::external_type_specification]
#[verifier::external_body]
pub struct ExSystemTimeError(SystemTimeError);

/// `std::time::Instant`, carried through opaquely.
#[verifier::external_type_specification]
#[verifier::external_body]
pub struct ExInstant(Instant);

/// Calls `SystemTime::now`; nothing is claimed of the reading.
#[verifier::external_body]
pub(crate) fn system_now() -> SystemTime {
    SystemTime::now()
}

/// Calls `SystemTime::duration_since` with the Unix epoch; it fails when
/// the reading is earlier than the epoch. Nothing is claimed of the value.
#[verifier::external_body]
pub(crate) fn since_epoch(t: &SystemTime) -> Result<Duration, SystemTimeError> {
    t.duration_since(std::time::UNIX_EPOCH)
}

/// Calls `Duration::subsec_nanos`, which std documents as always below
/// one billion.
#[verifier::external_body]
pub(crate) fn subsec_nanos(d: &Duration) -> (n: u32)
    ensures
        n < 1_000_000_000,
{
    d.subsec_nanos()
}

/// Calls `Instant::now`; nothing is claimed of the reading.
#[verifier::external_body]
pub(crate) fn instant_now() -> Instant {
    Instant::now()
}

/// Calls `Instant::elapsed`; nothing is claimed of the value.
#[verifier::external_body]
pub(crate) fn elapsed(t: &Instant) -> Duration {
    t.elapsed()
}

/// Calls `Duration::as_millis`; nothing is claimed of the value beyond
/// its type.
#[verifier::external_body]
pub(crate) fn as_millis(d: &Duration) -> u128 {
    d.as_millis()
}

} // verus!
