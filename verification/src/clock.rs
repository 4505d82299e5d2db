//! Local wall-clock readings for the time-stamped payloads.
//!
//! The engine stamps stick commands with the local time of day and answers
//! the vehicle's time-sync request with the local date and time.  Only the
//! readings themselves are trusted; every byte written from them is built by
//! verified code.

use chrono::{Datelike, Timelike};
use vstd::prelude::*;

verus! {

/// A local time-of-day reading: hour, minute, second and the milliseconds
/// within the second.
#[derive(Debug, Clone, Copy, PartialEq, Eq, Structural)]
pub struct TimeOfDay {
    pub hour: u8,
    pub minute: u8,
    pub second: u8,
    pub millis: u16,
}

/// A local calendar date and time reading.  The year is reduced to 16 bits,
/// as the wire format carries it.
#[derive(Debug, Clone, Copy, PartialEq, Eq, Structural)]
pub struct DateTimeFields {
    pub year: u16,
    pub month: u16,
    pub day: u16,
    pub hour: u16,
    pub minute: u16,
    pub second: u16,
    pub millis: u16,
}

/// Relies on `chrono::Local::now` and the `Timelike` accessors: the hour is
/// 0 to 23, minute and second 0 to 59, and `timestamp_subsec_millis` stays
/// below 2000 (999 at most outside a leap second).
#[verifier::external_body]
pub(crate) fn now_time_of_day() -> (r: TimeOfDay)
    ensures
        r.hour < 24,
        r.minute < 60,
        r.second < 60,
        r.millis < 2000,
{
    let now = chrono::Local::now();
    TimeOfDay {
        hour: now.hour() as u8,
        minute: now.minute() as u8,
        second: now.second() as u8,
        millis: now.timestamp_subsec_millis() as u16,
    }
}

/// Relies on `chrono::Local::now` and the `Datelike`/`Timelike` accessors:
/// the month is 1 to 12, the day 1 to 31, the hour 0 to 23, minute and
/// second 0 to 59, and `timestamp_subsec_millis` stays below 2000.
#[verifier::external_body]
pub(crate) fn now_date_time() -> (r: DateTimeFields)
    ensures
        1 <= r.month <= 12,
        1 <= r.day <= 31,
        r.hour < 24,
        r.minute < 60,
        r.second < 60,
        r.millis < 2000,
{
    let now = chrono::Local::now();
    DateTimeFields {
        year: now.year() as u16,
        month: now.month() as u16,
        day: now.day() as u16,
        hour: now.hour() as u16,
        minute: now.minute() as u16,
        second: now.second() as u16,
        millis: now.timestamp_subsec_millis() as u16,
    }
}

} // verus!
