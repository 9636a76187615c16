//! Wall-clock time, through chrono: the current time as seconds since the
//! Unix epoch, and the time of day that such a timestamp falls on.

use vstd::prelude::*;
use crate::text::digit;

verus! {

/// The latest timestamp whose time of day the library renders: the last
/// second of the year 9999.
pub const LATEST_STAMP: i64 = 253_402_300_799;

/// `n`, below one hundred, as two decimal digits.
pub open spec fn two_digits(n: int) -> Seq<char> {
    seq![digit((n / 10) as nat), digit((n % 10) as nat)]
}

/// The UTC time of day of `secs` seconds after the Unix epoch, as `HH:MM:SS`.
pub open spec fn clock_text(secs: int) -> Seq<char> {
    let day = secs % 86400;
    two_digits(day / 3600) + seq![':'] + two_digits((day % 3600) / 60) + seq![':'] + two_digits(day % 60)
}

/// Relies on `chrono::Utc::now` and `DateTime::timestamp`: the current time
/// in whole seconds since the Unix epoch. It depends on the clock; `now`
/// panics on a clock set before the epoch, so what it returns is not
/// negative.
#[verifier::external_body]
pub(crate) fn unix_now() -> (r: i64)
    ensures
        r >= 0,
{
    chrono::Utc::now().timestamp()
}

/// Relies on `chrono::DateTime::<Utc>::from_timestamp` and on formatting with
/// `%H:%M:%S`: for a timestamp from the epoch to the end of the year 9999 the
/// conversion succeeds, and the text is the zero-padded hour, minute and
/// second of that UTC time of day.
#[verifier::external_body]
pub(crate) fn utc_clock_text(secs: i64) -> (r: String)
    requires
        0 <= secs <= LATEST_STAMP,
    ensures
        r@ == clock_text(secs as int),
{
    match chrono::DateTime::from_timestamp(secs, 0) {
        Some(t) => t.format("%H:%M:%S").to_string(),
        None => String::new(),
    }
}

/// Relies on `chrono::Local::now` and on formatting with `%H:%M:%S`: the
/// local time of day, as two digits each for hour, minute and second with
/// colons between. Which time it is depends on the clock and the time zone.
#[verifier::external_body]
pub(crate) fn local_clock_text() -> (r: String)
    ensures
        r@.len() == 8,
        r@[2] == ':',
        r@[5] == ':',
{
    chrono::Local::now().format("%H:%M:%S").to_string()
}

} // verus!
