//! The wall clock, as the operating system and the time zone of the machine
//! give it.

use chrono::Timelike;
use vstd::prelude::*;

verus! {

/// The local time of day in seconds since midnight, read with
/// `chrono::Local::now` and `chrono::Timelike::num_seconds_from_midnight`.
/// Trusted: chrono counts hours up to 23 and minutes and seconds up to 59,
/// so the number it reports is below 86 400. Nothing else is said of it, as
/// it is the time.
#[verifier::external_body]
pub(crate) fn local_time_of_day() -> (seconds: u32)
    ensures
        seconds < 86_400,
{
    chrono::Local::now().num_seconds_from_midnight()
}

/// The time in seconds since the epoch, read with `chrono::Local::now` and
/// `chrono::DateTime::timestamp`. Trusted, and nothing is said of it.
#[verifier::external_body]
pub(crate) fn local_timestamp() -> i64 {
    chrono::Local::now().timestamp()
}

} // verus!
