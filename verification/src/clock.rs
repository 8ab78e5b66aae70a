//! The system clock, read through `std::time`. Nothing is promised of what
//! it reads: the functions that use it state what holds of every reading.
use vstd::prelude::*;

verus! {

#[verifier::external_type_specification]
#[verifier::external_body]
pub struct ExSystemTime(std::time::SystemTime);

#[verifier::external_type_specification]
#[verifier::external_body]
pub struct ExSystemTimeError(std::time::SystemTimeError);

/// Calls `std::time::SystemTime::now`. Nothing is stated of the reading.
#[verifier::external_body]
pub(crate) fn system_time_now() -> std::time::SystemTime {
    std::time::SystemTime::now()
}

/// Calls `SystemTime::duration_since(UNIX_EPOCH)` on a reading. Nothing is
/// stated of the result: it depends on the reading.
#[verifier::external_body]
pub(crate) fn duration_since_unix_epoch(t: &std::time::SystemTime) -> Result<
    std::time::Duration,
    std::time::SystemTimeError,
> {
    t.duration_since(std::time::UNIX_EPOCH)
}

/// Calls `Duration::as_secs`. Nothing is stated of the whole seconds returned.
#[verifier::external_body]
pub(crate) fn duration_whole_secs(d: &std::time::Duration) -> u64 {
    d.as_secs()
}

/// Calls `to_string` on a clock error. Nothing is stated of the message.
#[verifier::external_body]
pub(crate) fn system_time_error_message(e: &std::time::SystemTimeError) -> String {
    e.to_string()
}

/// Whole seconds elapsed since the Unix epoch by the system clock, or the
/// message of the error when the clock reads earlier than the epoch.
pub fn secs_since_unix_epoch() -> Result<u64, String> {
    let now = system_time_now();
    match duration_since_unix_epoch(&now) {
        Ok(d) => Ok(duration_whole_secs(&d)),
        Err(e) => Err(system_time_error_message(&e)),
    }
}

} // verus!
