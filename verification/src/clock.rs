//! Readings of the system clock, used only to make identifiers readable.

use vstd::prelude::*;

verus! {

#[verifier::external_type_specification]
#[verifier::external_body]
pub struct ExSystemTime(std::time::SystemTime);

/// `std::time::SystemTime::now`: the current reading of the system clock.
/// Nothing is promised of the reading.
#[verifier::external_body]
fn clock_now() -> std::time::SystemTime {
    std::time::SystemTime::now()
}

/// `SystemTime::duration_since(UNIX_EPOCH)`: the time elapsed since the Unix
/// epoch, or `None` where the reading lies before the epoch. The length of
/// the duration is left unsaid: it depends on the clock.
#[verifier::external_body]
fn since_unix_epoch(t: &std::time::SystemTime) -> Option<std::time::Duration> {
    t.duration_since(std::time::UNIX_EPOCH).ok()
}

/// `Duration::as_millis`: the whole milliseconds of a duration. Nothing is
/// stated of the number: the duration it reads comes from the clock.
#[verifier::external_body]
fn whole_millis(d: &std::time::Duration) -> u128 {
    d.as_millis()
}

/// Milliseconds since the Unix epoch, or 0 where the clock reads earlier.
pub(crate) fn unix_millis() -> u128 {
    let now = clock_now();
    match since_unix_epoch(&now) {
        Some(d) => whole_millis(&d),
        None => 0,
    }
}

} // verus!
