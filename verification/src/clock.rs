//! The clock: which day of the month it is, and how much time has passed.

use chrono::{DateTime, Datelike};
use vstd::prelude::*;

verus! {

/// Day of the month, counted from 0, of the instant `unix_seconds` seconds
/// after 1970-01-01 00:00:00 UTC, read in UTC; `None` where the date is
/// outside the years that chrono represents.
pub uninterp spec fn utc_day_of_month0(unix_seconds: i64) -> Option<u32>;

/// Day of the month, counted from 0, of the instant that lies the given
/// number of seconds after 1970-01-01 00:00:00 UTC; `None` where there is no
/// such day because the number is out of range.
pub open spec fn day_index_of(seconds: int) -> Option<u32> {
    if i64::MIN <= seconds <= i64::MAX {
        utc_day_of_month0(seconds as i64)
    } else {
        None
    }
}

/// Makes the date with `chrono::DateTime::from_timestamp` and reads its day
/// with `chrono::Datelike::day0`. Trusted: the result depends on the
/// argument alone, it is `None` exactly where `from_timestamp` returns
/// `None`, and a day that `day0` returns is at most 30.
#[verifier::external_body]
fn utc_day0(unix_seconds: i64) -> (day: Option<u32>)
    ensures
        day == utc_day_of_month0(unix_seconds),
        day matches Some(d) ==> d <= 30,
{
    match DateTime::from_timestamp(unix_seconds, 0) {
        Some(date) => Some(date.day0()),
        None => None,
    }
}

/// The index of the current day: the day of the month, counted from 0, at
/// `now_seconds` seconds after 1970-01-01 00:00:00 UTC moved by
/// `offset_seconds`. `None` where the moved instant has no date.
pub fn day_index_at(now_seconds: i64, offset_seconds: i64) -> (day: Option<u32>)
    ensures
        day == day_index_of(now_seconds + offset_seconds),
        day matches Some(d) ==> d <= 30,
{
    match now_seconds.checked_add(offset_seconds) {
        Some(seconds) => utc_day0(seconds),
        None => None,
    }
}

/// The time that a tick accounts for, given the microseconds measured since
/// the previous tick: a measurement that is missing or negative counts as no
/// time at all.
pub fn elapsed_micros(measured: Option<i64>) -> (dt_micros: u64)
    ensures
        dt_micros == match measured {
            Some(micros) => if micros > 0 {
                micros as int
            } else {
                0
            },
            None => 0,
        },
{
    match measured {
        Some(micros) => if micros > 0 {
            micros as u64
        } else {
            0
        },
        None => 0,
    }
}

} // verus!
