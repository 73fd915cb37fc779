//! The wall clock, read as milliseconds since the Unix epoch.

use vstd::prelude::*;

verus! {

#[verifier::external_type_specification]
#[verifier::external_body]
pub struct ExSystemTime(std::time::SystemTime);

/// `SystemTime::now`: the current wall-clock time. Nothing is stated of it:
/// it is whatever the system clock reads.
#[verifier::external_body]
pub(crate) fn system_now() -> std::time::SystemTime {
    std::time::SystemTime::now()
}

/// `SystemTime::duration_since(UNIX_EPOCH)`: the time elapsed since the epoch,
/// `None` where the clock reads earlier than the epoch. Nothing is stated of
/// the duration, which depends on the clock.
#[verifier::external_body]
pub(crate) fn since_unix_epoch(t: &std::time::SystemTime) -> Option<std::time::Duration> {
    t.duration_since(std::time::UNIX_EPOCH).ok()
}

/// `Duration::as_millis`: the whole milliseconds of a duration. The duration
/// is opaque here, so nothing is stated of the count.
#[verifier::external_body]
pub(crate) fn duration_millis(d: &std::time::Duration) -> u128 {
    d.as_millis()
}

/// Milliseconds since the Unix epoch on the wall clock, zero where the clock
/// reads before the epoch, cut to 64 bits. The value is the clock's: no
/// contract can fix it.
pub fn now_unix_ms() -> u64 {
    let t = system_now();
    let millis: u128 = match since_unix_epoch(&t) {
        Some(d) => duration_millis(&d),
        None => 0,
    };
    #[verifier::truncate]
    (millis as u64)
}

} // verus!
