//! Dates and times in UTC, on the proleptic Gregorian calendar, as chrono keeps them.
//!
//! A `UtcDateTime` holds the fields of a chrono `DateTime<Utc>`. The calendar
//! arithmetic of the library (adding months, clamping the day) is verified here; shifting
//! by a number of seconds and reading the clock are chrono's.
use vstd::prelude::*;
use chrono::{Datelike, Timelike};
use crate::text::{digits, zero_padded};

verus! {

/// The first year chrono can represent.
pub const MIN_YEAR: i32 = -262143;

/// The last year chrono can represent.
pub const MAX_YEAR: i32 = 262142;

/// A date and time in UTC. A nanosecond value of a billion or more marks a leap second
/// (the 60th second of the minute), as in chrono.
#[derive(Debug, Clone, Copy, PartialEq, Eq)]
pub struct UtcDateTime {
    pub year: i32,
    pub month: u32,
    pub day: u32,
    pub hour: u32,
    pub minute: u32,
    pub second: u32,
    pub nanosecond: u32,
}

/// Whether `y` is a leap year of the Gregorian calendar.
pub open spec fn is_leap_year(y: int) -> bool {
    y % 4 == 0 && (y % 100 != 0 || y % 400 == 0)
}

/// The number of days of month `m` (1 to 12) of year `y`.
pub open spec fn days_in_month(y: int, m: int) -> int {
    if m == 2 {
        if is_leap_year(y) {
            29
        } else {
            28
        }
    } else if m == 4 || m == 6 || m == 9 || m == 11 {
        30
    } else {
        31
    }
}

/// Whether `(y, m, d)` is a date chrono can represent.
pub open spec fn is_valid_date(y: int, m: int, d: int) -> bool {
    &&& MIN_YEAR <= y <= MAX_YEAR
    &&& 1 <= m <= 12
    &&& 1 <= d <= days_in_month(y, m)
}

/// The number of leap years before year `y`, counted from a fixed origin.
pub open spec fn leaps_before(y: int) -> int {
    (y - 1) / 4 - (y - 1) / 100 + (y - 1) / 400
}

/// The number of days from 1970-01-01 to the first day of year `y`.
pub open spec fn days_before_year(y: int) -> int {
    365 * (y - 1970) + leaps_before(y) - leaps_before(1970)
}

/// The number of days in year `y` before the first day of month `m`.
pub open spec fn days_before_month(y: int, m: int) -> int {
    let base: int = if m <= 1 {
        0
    } else if m == 2 {
        31
    } else if m == 3 {
        59
    } else if m == 4 {
        90
    } else if m == 5 {
        120
    } else if m == 6 {
        151
    } else if m == 7 {
        181
    } else if m == 8 {
        212
    } else if m == 9 {
        243
    } else if m == 10 {
        273
    } else if m == 11 {
        304
    } else {
        334
    };
    base + if m > 2 && is_leap_year(y) {
        1int
    } else {
        0int
    }
}

/// The number of days from 1970-01-01 to the date `(y, m, d)`.
pub open spec fn epoch_day(y: int, m: int, d: int) -> int {
    days_before_year(y) + days_before_month(y, m) + d - 1
}

/// The earliest second chrono can represent, counted from 1970-01-01 00:00:00.
pub open spec fn min_epoch_second() -> int {
    epoch_day(MIN_YEAR as int, 1, 1) * 86400
}

/// The latest second chrono can represent, counted from 1970-01-01 00:00:00.
pub open spec fn max_epoch_second() -> int {
    epoch_day(MAX_YEAR as int, 12, 31) * 86400 + 86399
}

/// The largest number of seconds a chrono `TimeDelta` can be built from.
pub open spec fn max_delta_seconds() -> int {
    i64::MAX / 1000
}

impl UtcDateTime {
    /// Whether the fields make a date and time chrono can represent.
    pub open spec fn wf(self) -> bool {
        &&& is_valid_date(self.year as int, self.month as int, self.day as int)
        &&& self.hour < 24
        &&& self.minute < 60
        &&& self.second < 60
        &&& self.nanosecond < 2_000_000_000
        &&& self.nanosecond >= 1_000_000_000 ==> self.second == 59
    }

    /// Whether this is a leap second.
    pub open spec fn is_leap_second(self) -> bool {
        self.nanosecond >= 1_000_000_000
    }

    /// The second this time falls in, counted from 1970-01-01 00:00:00 (a leap second
    /// counts as the second before it).
    pub open spec fn epoch_second(self) -> int {
        epoch_day(self.year as int, self.month as int, self.day as int) * 86400 + self.hour
            * 3600 + self.minute * 60 + self.second
    }

    /// The second that adding `s` seconds leads to: as chrono counts, leaving a leap
    /// second backwards starts from the second after it.
    pub open spec fn shifted_epoch_second(self, s: int) -> int {
        if self.is_leap_second() && s < 0 {
            self.epoch_second() + 1 + s
        } else {
            self.epoch_second() + s
        }
    }

    /// Whether chrono can add `s` seconds to this time without overflowing.
    pub open spec fn can_shift(self, s: int) -> bool {
        &&& -max_delta_seconds() <= s <= max_delta_seconds()
        &&& min_epoch_second() <= self.shifted_epoch_second(s) <= max_epoch_second()
    }

    /// Whether `r` is this time shifted by `s` seconds, as chrono shifts it.
    pub open spec fn shifted_to(self, s: int, r: UtcDateTime) -> bool {
        &&& r.wf()
        &&& r.epoch_second() == self.shifted_epoch_second(s)
        &&& r.nanosecond == if self.is_leap_second() && s != 0 {
            (self.nanosecond - 1_000_000_000) as u32
        } else {
            self.nanosecond
        }
    }

    /// This time with the year, month and day replaced.
    pub open spec fn with_date(self, y: int, m: int, d: int) -> UtcDateTime {
        UtcDateTime { year: y as i32, month: m as u32, day: d as u32, ..self }
    }
}

/// Whether `y` is a leap year.
pub fn is_leap(y: i32) -> (r: bool)
    ensures
        r == is_leap_year(y as int),
{
    y % 4 == 0 && (y % 100 != 0 || y % 400 == 0)
}

/// The number of days of month `m` of year `y` (31 for a month number out of range).
pub fn month_length(y: i32, m: u32) -> (r: u32)
    ensures
        r == days_in_month(y as int, m as int),
{
    if m == 2 {
        if is_leap(y) {
            29
        } else {
            28
        }
    } else if m == 4 || m == 6 || m == 9 || m == 11 {
        30
    } else {
        31
    }
}

/// Floor division by a positive divisor.
pub fn floor_div(a: i64, b: i64) -> (q: i64)
    requires
        b > 0,
        a > i64::MIN,
    ensures
        q == a / b,
{
    if a >= 0 {
        ((a as u64) / (b as u64)) as i64
    } else {
        let m = (-a) as u64;
        let bb = b as u64;
        let q0 = (m / bb) as i64;
        let r0 = (m % bb) as i64;
        proof {
            assert(m == bb * (m / bb) + (m % bb)) by (nonlinear_arith)
                requires
                    bb > 0,
            ;
            assert(0 <= m % bb < bb) by (nonlinear_arith)
                requires
                    bb > 0,
            ;
            assert(a == b * (-q0) - r0) by (nonlinear_arith)
                requires
                    a == -(m as int),
                    m as int == bb * q0 + r0,
                    bb == b,
            ;
        }
        if r0 == 0 {
            proof {
                vstd::arithmetic::div_mod::lemma_fundamental_div_mod_converse(
                    a as int,
                    b as int,
                    -q0 as int,
                    0,
                );
            }
            -q0
        } else {
            proof {
                assert(a == b * (-q0 - 1) + (b - r0)) by (nonlinear_arith)
                    requires
                        a == b * (-q0) - r0,
                ;
                vstd::arithmetic::div_mod::lemma_fundamental_div_mod_converse(
                    a as int,
                    b as int,
                    -q0 - 1,
                    (b - r0) as int,
                );
            }
            -q0 - 1
        }
    }
}

/// The number of days from 1970-01-01 to the given date.
pub fn epoch_day_of(y: i32, m: u32, d: u32) -> (r: i64)
    requires
        is_valid_date(y as int, m as int, d as int),
    ensures
        r == epoch_day(y as int, m as int, d as int),
{
    let yy = y as i64;
    let leaps = floor_div(yy - 1, 4) - floor_div(yy - 1, 100) + floor_div(yy - 1, 400);
    let leaps_1970: i64 = 477;
    proof {
        assert(leaps_before(1970) == 477);
    }
    let base: i64 = if m <= 1 {
        0
    } else if m == 2 {
        31
    } else if m == 3 {
        59
    } else if m == 4 {
        90
    } else if m == 5 {
        120
    } else if m == 6 {
        151
    } else if m == 7 {
        181
    } else if m == 8 {
        212
    } else if m == 9 {
        243
    } else if m == 10 {
        273
    } else if m == 11 {
        304
    } else {
        334
    };
    let extra: i64 = if m > 2 && is_leap(y) {
        1
    } else {
        0
    };
    365 * (yy - 1970) + leaps - leaps_1970 + base + extra + d as i64 - 1
}

/// The second a time falls in, counted from 1970-01-01 00:00:00.
pub fn epoch_second_of(t: &UtcDateTime) -> (r: i64)
    requires
        t.wf(),
    ensures
        r == t.epoch_second(),
{
    let day = epoch_day_of(t.year, t.month, t.day);
    proof {
        assert(epoch_day(MIN_YEAR as int, 1, 1) <= epoch_day(
            t.year as int,
            t.month as int,
            t.day as int,
        ) <= epoch_day(MAX_YEAR as int, 12, 31)) by {
            lemma_epoch_day_bounds(t.year as int, t.month as int, t.day as int);
        }
    }
    day * 86400 + t.hour as i64 * 3600 + t.minute as i64 * 60 + t.second as i64
}

proof fn lemma_epoch_day_bounds(y: int, m: int, d: int)
    requires
        is_valid_date(y, m, d),
    ensures
        -100_000_000 <= epoch_day(y, m, d) <= 100_000_000,
        epoch_day(MIN_YEAR as int, 1, 1) <= epoch_day(y, m, d) <= epoch_day(MAX_YEAR as int, 12, 31),
{
    assert(epoch_day(MIN_YEAR as int, 1, 1) == -96465292);
    assert(epoch_day(MAX_YEAR as int, 12, 31) == 95026236);
    lemma_days_before_year_monotonic(MIN_YEAR as int, y);
    lemma_days_before_year_monotonic(y, MAX_YEAR as int);
    lemma_days_before_year_step(y);
}

proof fn lemma_days_before_year_step(y: int)
    ensures
        days_before_year(y + 1) == days_before_year(y) + if is_leap_year(y) {
            366int
        } else {
            365int
        },
{
    assert(leaps_before(y + 1) - leaps_before(y) == if is_leap_year(y) { 1int } else { 0int });
}

proof fn lemma_days_before_year_monotonic(a: int, b: int)
    requires
        a <= b,
    ensures
        days_before_year(a) + 365 * (b - a) <= days_before_year(b),
        days_before_year(b) <= days_before_year(a) + 366 * (b - a),
    decreases b - a,
{
    if a < b {
        lemma_days_before_year_monotonic(a, b - 1);
        lemma_days_before_year_step(b - 1);
    }
}

/// The month after month `m` of year `y`, as (year, month).
pub open spec fn next_month(y: int, m: int) -> (int, int) {
    if m == 12 {
        (y + 1, 1)
    } else {
        (y, m + 1)
    }
}

/// A running count of months: month `m` (1 to 12) of year `y`.
pub open spec fn month_index(y: int, m: int) -> int {
    12 * y + m - 1
}

/// The first day of the next month comes right after the last day of this one.
pub proof fn lemma_next_month_start(y: int, m: int)
    requires
        1 <= m <= 12,
    ensures
        epoch_day(next_month(y, m).0, next_month(y, m).1, 1) == epoch_day(y, m, 1)
            + days_in_month(y, m),
{
    if m == 12 {
        lemma_days_before_year_step(y);
    }
}

/// The first days of months grow with the months: a later month starts at least a whole
/// month's length after an earlier one.
pub proof fn lemma_month_starts_increase(y1: int, m1: int, y2: int, m2: int)
    requires
        1 <= m1 <= 12,
        1 <= m2 <= 12,
        month_index(y1, m1) < month_index(y2, m2),
    ensures
        epoch_day(y2, m2, 1) >= epoch_day(y1, m1, 1) + days_in_month(y1, m1),
    decreases month_index(y2, m2) - month_index(y1, m1),
{
    lemma_next_month_start(y1, m1);
    let (ny, nm) = next_month(y1, m1);
    if ny != y2 || nm != m2 {
        lemma_month_starts_increase(ny, nm, y2, m2);
    }
}

/// A valid date of a later month falls on a later day.
pub proof fn lemma_later_month_later_day(y1: int, m1: int, d1: int, y2: int, m2: int, d2: int)
    requires
        1 <= m1 <= 12,
        1 <= m2 <= 12,
        1 <= d1 <= days_in_month(y1, m1),
        1 <= d2,
        month_index(y1, m1) < month_index(y2, m2),
    ensures
        epoch_day(y2, m2, d2) > epoch_day(y1, m1, d1),
{
    lemma_month_starts_increase(y1, m1, y2, m2);
}

/// Whether chrono can add `s` seconds to `t`; what the trusted shift requires.
pub fn can_shift_by(t: &UtcDateTime, s: i64) -> (r: bool)
    requires
        t.wf(),
    ensures
        r == t.can_shift(s as int),
{
    let max_delta: i64 = i64::MAX / 1000;
    if s < -max_delta || s > max_delta {
        return false;
    }
    let e = epoch_second_of(t);
    let lo: i64 = -96465292 * 86400;
    let hi: i64 = 95026236 * 86400 + 86399;
    proof {
        assert(epoch_day(MIN_YEAR as int, 1, 1) == -96465292);
        assert(epoch_day(MAX_YEAR as int, 12, 31) == 95026236);
    }
    let shifted: i128 = if t.nanosecond >= 1_000_000_000 && s < 0 {
        e as i128 + 1 + s as i128
    } else {
        e as i128 + s as i128
    };
    lo as i128 <= shifted && shifted <= hi as i128
}

/// Shifts `t` by `s` seconds: `t + TimeDelta::seconds(s)` in chrono.
#[verifier::external_body]
pub(crate) fn shift_seconds(t: &UtcDateTime, s: i64) -> (r: UtcDateTime)
    requires
        t.wf(),
        t.can_shift(s as int),
    ensures
        t.shifted_to(s as int, r),
{
    let c = chrono::NaiveDate::from_ymd_opt(t.year, t.month, t.day).unwrap()
        .and_hms_nano_opt(t.hour, t.minute, t.second, t.nanosecond).unwrap().and_utc();
    let d = c + chrono::TimeDelta::seconds(s);
    UtcDateTime { year: d.year(), month: d.month(), day: d.day(), hour: d.hour(),
        minute: d.minute(), second: d.second(), nanosecond: d.nanosecond() }
}

/// chrono's `DateTime::parse_from_str` with the format `%Y-%m-%d %H:%M:%S`, the result
/// taken to UTC. That method requires a UTC offset in the input (its documentation says
/// so, and `Parsed::to_datetime` fails without one); this format has no offset field, so
/// it never succeeds.
#[verifier::external_body]
pub(crate) fn parse_sql_datetime_with_offset(s: &str) -> (r: Option<UtcDateTime>)
    ensures
        r is None,
{
    match chrono::DateTime::parse_from_str(s, "%Y-%m-%d %H:%M:%S") {
        Ok(d) => {
            let d = d.with_timezone(&chrono::Utc);
            Some(UtcDateTime { year: d.year(), month: d.month(), day: d.day(), hour: d.hour(),
                minute: d.minute(), second: d.second(), nanosecond: d.nanosecond() })
        },
        Err(_) => None,
    }
}

/// The fraction of a second as chrono's RFC 3339 writer puts it: nothing for a whole
/// second, else a dot and three, six or nine digits, the fewest that show it exactly.
pub open spec fn rfc3339_fraction(nano: int) -> Seq<char> {
    if nano == 0 {
        Seq::empty()
    } else if nano % 1_000_000 == 0 {
        seq!['.'] + zero_padded(nano / 1_000_000, 3)
    } else if nano % 1000 == 0 {
        seq!['.'] + zero_padded(nano / 1000, 6)
    } else {
        seq!['.'] + zero_padded(nano, 9)
    }
}

/// What chrono's `DateTime::<Utc>::to_rfc3339` writes for `t`: the date and time with the
/// year as `%Y` writes it, a leap second as second 60, the fraction as short as it can be
/// written exactly, and the offset `+00:00`.
pub open spec fn rfc3339_text(t: UtcDateTime) -> Seq<char> {
    let leap = t.nanosecond >= 1_000_000_000;
    let sec = if leap {
        t.second + 1
    } else {
        t.second as int
    };
    let nano = if leap {
        t.nanosecond - 1_000_000_000
    } else {
        t.nanosecond as int
    };
    year_text(t.year as int) + "-"@ + zero_padded(t.month as int, 2) + "-"@ + zero_padded(
        t.day as int,
        2,
    ) + "T"@ + zero_padded(t.hour as int, 2) + ":"@ + zero_padded(t.minute as int, 2) + ":"@
        + zero_padded(sec, 2) + rfc3339_fraction(nano) + "+00:00"@
}

/// What chrono's `DateTime::parse_from_rfc3339` gives for `s`, taken to UTC.
pub uninterp spec fn rfc3339_parsed(s: Seq<char>) -> Option<UtcDateTime>;

/// chrono's `to_rfc3339` (e.g. `2024-05-01T12:00:00.123456789+00:00`), as its
/// `write_rfc3339` writes a UTC time.
#[verifier::external_body]
pub(crate) fn format_rfc3339(t: &UtcDateTime) -> (s: String)
    requires
        t.wf(),
    ensures
        s@ == rfc3339_text(*t),
{
    chrono::NaiveDate::from_ymd_opt(t.year, t.month, t.day).unwrap()
        .and_hms_nano_opt(t.hour, t.minute, t.second, t.nanosecond).unwrap().and_utc().to_rfc3339()
}

/// chrono's `DateTime::parse_from_rfc3339`, the result taken to UTC. The contract names the
/// result as a function of the text; what chrono gives back is a time it can represent;
/// and the text `to_rfc3339` writes for a time of a four-digit year (which is what the
/// parser reads, a second 60 included) parses back to that time.
#[verifier::external_body]
pub(crate) fn parse_rfc3339(s: &str) -> (r: Option<UtcDateTime>)
    ensures
        r == rfc3339_parsed(s@),
        r matches Some(t) ==> t.wf(),
        forall|t: UtcDateTime|
            #![trigger rfc3339_text(t)]
            t.wf() && 0 <= t.year <= 9999 && s@ == rfc3339_text(t) ==> r == Some(t),
{
    match chrono::DateTime::parse_from_rfc3339(s) {
        Ok(d) => {
            let d = d.with_timezone(&chrono::Utc);
            Some(UtcDateTime { year: d.year(), month: d.month(), day: d.day(), hour: d.hour(),
                minute: d.minute(), second: d.second(), nanosecond: d.nanosecond() })
        },
        Err(_) => None,
    }
}

/// Whether `a` is a later instant than `b`.
pub open spec fn later_than(a: UtcDateTime, b: UtcDateTime) -> bool {
    a.epoch_second() > b.epoch_second() || (a.epoch_second() == b.epoch_second() && a.nanosecond
        > b.nanosecond)
}

/// Whether `a` is a later instant than `b` (chrono's `>` on times).
pub fn is_later(a: &UtcDateTime, b: &UtcDateTime) -> (r: bool)
    requires
        a.wf(),
        b.wf(),
    ensures
        r == later_than(*a, *b),
{
    let ea = epoch_second_of(a);
    let eb = epoch_second_of(b);
    ea > eb || (ea == eb && a.nanosecond > b.nanosecond)
}

/// The current time: chrono's `Utc::now()`. Nothing is promised of it but that it is a
/// time chrono can represent without a leap second.
#[verifier::external_body]
pub(crate) fn now_utc() -> (r: UtcDateTime)
    ensures
        r.wf(),
        !r.is_leap_second(),
{
    let d = chrono::Utc::now();
    UtcDateTime { year: d.year(), month: d.month(), day: d.day(), hour: d.hour(),
        minute: d.minute(), second: d.second(), nanosecond: d.nanosecond() }
}

/// The current time, as the operations that record when they happened read it.
pub fn current_time() -> (t: UtcDateTime)
    ensures
        t.wf(),
        !t.is_leap_second(),
{
    now_utc()
}

/// The year as chrono's `%Y` writes it: four digits for years 0 to 9999, else a sign and
/// at least four digits.
pub open spec fn year_text(y: int) -> Seq<char> {
    if 0 <= y <= 9999 {
        zero_padded(y, 4)
    } else if y < 0 {
        zero_padded(y, 5)
    } else {
        seq!['+'] + digits(y as nat)
    }
}

/// `t` as chrono formats it with `%Y-%m-%d %H:%M:%S` (a leap second shows as second 60).
pub open spec fn sql_datetime_text(t: UtcDateTime) -> Seq<char> {
    year_text(t.year as int) + seq!['-'] + zero_padded(t.month as int, 2) + seq!['-']
        + zero_padded(t.day as int, 2) + seq![' '] + zero_padded(t.hour as int, 2) + seq![':']
        + zero_padded(t.minute as int, 2) + seq![':'] + zero_padded(
        t.second as int + t.nanosecond as int / 1_000_000_000,
        2,
    )
}

/// chrono's `format("%Y-%m-%d %H:%M:%S")`, the form the store keeps times in. The
/// contract claims what chrono's formatting code writes for these items: `%Y` four digits
/// for years 0 to 9999 and a sign with at least four digits otherwise, two digits for the
/// other fields, and second 60 for a leap second.
#[verifier::external_body]
pub(crate) fn format_sql_datetime(t: &UtcDateTime) -> (s: String)
    requires
        t.wf(),
    ensures
        s@ == sql_datetime_text(*t),
{
    chrono::NaiveDate::from_ymd_opt(t.year, t.month, t.day).unwrap()
        .and_hms_nano_opt(t.hour, t.minute, t.second, t.nanosecond).unwrap()
        .format("%Y-%m-%d %H:%M:%S").to_string()
}

} // verus!
