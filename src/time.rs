use vstd::prelude::*;

use crate::text::{all_digits, digits_value};

verus! {

/// Seconds since the Unix epoch, in UTC.
pub type Timestamp = i64;

/// A length of time in seconds.
pub type Seconds = i64;

/// The earliest instant the library handles: 0000-01-01T00:00:00Z.
pub const MIN_TIME: i64 = -62167219200;

/// The latest instant the library handles: 9999-12-31T23:59:59Z.
pub const MAX_TIME: i64 = 253402300799;

/// The longest delay or period the library handles: about a hundred years.
pub const MAX_SPAN: i64 = 3155760000;

pub const MINUTE: i64 = 60;

pub const HOUR: i64 = 3600;

pub const DAY: i64 = 86400;

/// A timestamp the library can reason about: one in a year written with four digits.
pub open spec fn valid_time(t: int) -> bool {
    MIN_TIME <= t <= MAX_TIME
}

/// A delay or period the library can reason about.
pub open spec fn valid_span(d: int) -> bool {
    0 <= d <= MAX_SPAN
}

pub open spec fn is_leap_year(y: int) -> bool {
    (y % 4 == 0 && y % 100 != 0) || y % 400 == 0
}

pub open spec fn days_in_month(y: int, m: int) -> int {
    if m == 2 {
        if is_leap_year(y) {
            29
        } else {
            28
        }
    } else if m == 4 || m == 6 || m == 9 || m == 11 {
        30
    } else {
        31
    }
}

/// Days from 1970-01-01 to the given day of the proleptic Gregorian calendar.
pub open spec fn days_from_civil(y: int, m: int, d: int) -> int {
    let yy = if m <= 2 {
        y - 1
    } else {
        y
    };
    let mp = if m > 2 {
        m - 3
    } else {
        m + 9
    };
    365 * yy + yy / 4 - yy / 100 + yy / 400 + (153 * mp + 2) / 5 + d - 1 - 719468
}

pub open spec fn valid_civil(y: int, m: int, d: int, h: int, mi: int) -> bool {
    1 <= m <= 12 && 1 <= d <= days_in_month(y, m) && 0 <= h < 24 && 0 <= mi < 60
}

/// The instant (in seconds, UTC) of a calendar date and time of day.
pub open spec fn civil_instant(y: int, m: int, d: int, h: int, mi: int) -> int {
    days_from_civil(y, m, d) * DAY + h * HOUR + mi * MINUTE
}

/// The fields of a `YYYYMMDDHHMM` stamp: year, month, day, hour, minute.
pub open spec fn stamp_fields(s: Seq<char>) -> (int, int, int, int, int) {
    (
        digits_value(s.subrange(0, 4)),
        digits_value(s.subrange(4, 6)),
        digits_value(s.subrange(6, 8)),
        digits_value(s.subrange(8, 10)),
        digits_value(s.subrange(10, 12)),
    )
}

/// A stamp of twelve digits that names an existing minute.
#[verifier::opaque]
pub open spec fn valid_stamp(s: Seq<char>) -> bool {
    let (y, m, d, h, mi) = stamp_fields(s);
    s.len() == 12 && all_digits(s) && valid_civil(y, m, d, h, mi)
}

/// The instant that a valid stamp names.
#[verifier::opaque]
pub open spec fn stamp_instant(s: Seq<char>) -> int {
    let (y, m, d, h, mi) = stamp_fields(s);
    civil_instant(y, m, d, h, mi)
}

/// The `YYYYMMDDHHMM` text that chrono writes for an instant.
pub uninterp spec fn stamp_text(t: int) -> Seq<char>;

/// Relies on chrono's `DateTime::from_timestamp` and `format("%Y%m%d%H%M")`: the
/// calendar year (four digits for these years), month, day, hour and minute of `t` in UTC,
/// each zero-padded, so that the stamp names `t` without its seconds.
#[verifier::external_body]
pub(crate) fn format_stamp(t: Timestamp) -> (r: String)
    requires
        valid_time(t as int),
    ensures
        r@ == stamp_text(t as int),
        valid_stamp(r@),
        stamp_instant(r@) == t - t % MINUTE,
{
    chrono::DateTime::from_timestamp(t, 0).map(|d| d.format("%Y%m%d%H%M").to_string()).unwrap_or_default()
}

/// Relies on chrono's `NaiveDateTime::parse_from_str(s, "%Y%m%d%H%M")` and `and_utc().timestamp()`:
/// on twelve digits it reads four for the year and two each for month, day, hour and
/// minute, and succeeds exactly when they name an existing minute.
#[verifier::external_body]
pub(crate) fn parse_stamp(s: &str) -> (r: Option<Timestamp>)
    requires
        s@.len() == 12,
        all_digits(s@),
    ensures
        r is Some <==> valid_stamp(s@),
        r matches Some(t) ==> t as int == stamp_instant(s@),
{
    chrono::NaiveDateTime::parse_from_str(s, "%Y%m%d%H%M").ok().map(|d| d.and_utc().timestamp())
}

/// Whether the library can reason about `t`.
pub fn is_valid_time(t: Timestamp) -> (r: bool)
    ensures
        r == valid_time(t as int),
{
    MIN_TIME <= t && t <= MAX_TIME
}

} // verus!
