use vstd::prelude::*;
use chrono::TimeZone;

verus! {

/// Milliseconds per civil day.
pub const MS_PER_DAY: i64 = 86400000;

/// Milliseconds per hour.
pub const MS_PER_HOUR: i64 = 3600000;

/// Milliseconds per minute.
pub const MS_PER_MINUTE: i64 = 60000;

/// The last second of a day, 23:59:59, as a millisecond offset into the day.
pub const END_OF_DAY_MS: i64 = 86399000;

/// The largest day number whose start still fits in an `i64` of milliseconds.
pub const MAX_CLOCK_DAY: i64 = 106751991167;

/// Addition on `i64` values that clips at the ends of the range instead of
/// wrapping.
pub open spec fn spec_sat_add(a: int, b: int) -> int {
    if a + b > i64::MAX as int {
        i64::MAX as int
    } else if a + b < i64::MIN as int {
        i64::MIN as int
    } else {
        a + b
    }
}

/// Subtraction on `i64` values that clips at the ends of the range.
pub open spec fn spec_sat_sub(a: int, b: int) -> int {
    if a - b > i64::MAX as int {
        i64::MAX as int
    } else if a - b < i64::MIN as int {
        i64::MIN as int
    } else {
        a - b
    }
}

pub fn sat_add(a: i64, b: i64) -> (r: i64)
    ensures
        r as int == spec_sat_add(a as int, b as int),
{
    if b >= 0 {
        if a > i64::MAX - b {
            i64::MAX
        } else {
            a + b
        }
    } else {
        if a < i64::MIN - b {
            i64::MIN
        } else {
            a + b
        }
    }
}

pub fn sat_sub(a: i64, b: i64) -> (r: i64)
    ensures
        r as int == spec_sat_sub(a as int, b as int),
{
    if b >= 0 {
        if a < i64::MIN + b {
            i64::MIN
        } else {
            a - b
        }
    } else {
        if a > i64::MAX + b {
            i64::MAX
        } else {
            a - b
        }
    }
}

/// The civil day a wall-clock millisecond timestamp falls on, as days since
/// 1970-01-01, rounding toward negative infinity.
pub open spec fn spec_day_of_ms(ms: int) -> int {
    ms / (MS_PER_DAY as int)
}

pub fn day_of_ms(ms: i64) -> (d: i64)
    ensures
        d as int == spec_day_of_ms(ms as int),
{
    let q: i64 = ms / MS_PER_DAY;
    let r: i64 = ms % MS_PER_DAY;
    if r < 0 {
        q - 1
    } else {
        q
    }
}

/// The millisecond offset of a timestamp into its civil day; always in
/// `[0, MS_PER_DAY)`.
pub open spec fn spec_ms_in_day(ms: int) -> int {
    ms % (MS_PER_DAY as int)
}

pub fn ms_in_day(ms: i64) -> (r: i64)
    ensures
        r as int == spec_ms_in_day(ms as int),
        0 <= r < MS_PER_DAY,
{
    let r0: i64 = ms % MS_PER_DAY;
    if r0 < 0 {
        r0 + MS_PER_DAY
    } else {
        r0
    }
}

/// The hour of the day, 0 to 23, of a wall-clock timestamp.
pub open spec fn spec_hour_of_ms(ms: int) -> int {
    spec_ms_in_day(ms) / (MS_PER_HOUR as int)
}

/// The minute of the hour, 0 to 59, of a wall-clock timestamp.
pub open spec fn spec_minute_of_ms(ms: int) -> int {
    (spec_ms_in_day(ms) % (MS_PER_HOUR as int)) / (MS_PER_MINUTE as int)
}

pub fn hour_of_ms(ms: i64) -> (h: i64)
    ensures
        h as int == spec_hour_of_ms(ms as int),
        0 <= h <= 23,
{
    ms_in_day(ms) / MS_PER_HOUR
}

pub fn minute_of_ms(ms: i64) -> (m: i64)
    ensures
        m as int == spec_minute_of_ms(ms as int),
        0 <= m <= 59,
{
    (ms_in_day(ms) % MS_PER_HOUR) / MS_PER_MINUTE
}

/// 23:59:59 on the given civil day, as a wall-clock timestamp; days so far
/// out that the result has no `i64` representation clip to the range ends.
pub open spec fn spec_end_of_day(day: int) -> int {
    spec_sat_add(
        if day * (MS_PER_DAY as int) > i64::MAX as int {
            i64::MAX as int
        } else if day * (MS_PER_DAY as int) < i64::MIN as int {
            i64::MIN as int
        } else {
            day * (MS_PER_DAY as int)
        },
        END_OF_DAY_MS as int,
    )
}

pub fn end_of_day(day: i64) -> (r: i64)
    ensures
        r as int == spec_end_of_day(day as int),
{
    let base: i64 = if day > MAX_CLOCK_DAY {
        proof {
            assert((day as int) * (MS_PER_DAY as int) > i64::MAX as int) by (nonlinear_arith)
                requires
                    (day as int) > 106751991167,
                    MS_PER_DAY == 86400000,
            ;
        }
        i64::MAX
    } else if day < -MAX_CLOCK_DAY {
        proof {
            assert((day as int) * (MS_PER_DAY as int) < i64::MIN as int) by (nonlinear_arith)
                requires
                    (day as int) < -106751991167,
                    MS_PER_DAY == 86400000,
            ;
        }
        i64::MIN
    } else {
        proof {
            assert(i64::MIN as int <= (day as int) * (MS_PER_DAY as int) <= i64::MAX as int)
                by (nonlinear_arith)
                requires
                    -106751991167 <= (day as int) <= 106751991167,
                    MS_PER_DAY == 86400000,
            ;
        }
        day * MS_PER_DAY
    };
    sat_add(base, END_OF_DAY_MS)
}

/// Days representable by the calendar library with comfortable margin; the
/// display layer clamps day numbers into this window before formatting.
pub const FORMAT_DAY_MIN: i64 = 0;

/// Upper end of the formattable day window (well inside year 9999).
pub const FORMAT_DAY_MAX: i64 = 2000000;

/// The text `"YYYY-MM-DD"` of the civil day `day` days after 1970-01-01,
/// exactly as the calendar library prints it. A pure function of the day.
pub uninterp spec fn day_text(day: int) -> Seq<char>;

/// Relies on `chrono::NaiveDate::from_epoch_days` and the `Display` of
/// `NaiveDate`: a date well inside the supported range formats as ISO 8601
/// `"YYYY-MM-DD"`, a pure function of the day number.
#[verifier::external_body]
pub(crate) fn format_epoch_day(day: i64) -> (r: String)
    requires
        FORMAT_DAY_MIN <= day <= FORMAT_DAY_MAX,
    ensures
        r@ == day_text(day as int),
{
    let d = chrono::NaiveDate::from_epoch_days(day as i32).unwrap();
    format!("{}", d)
}

/// The day number of the civil date given as year, month and day, when that
/// date exists in the proleptic Gregorian calendar. A pure function of its
/// arguments.
pub uninterp spec fn epoch_day_of_ymd(y: int, m: int, d: int) -> Option<i64>;

/// Relies on `chrono::NaiveDate::from_ymd_opt` and `to_epoch_days`: maps a
/// civil date to days since 1970-01-01, `None` when the date does not exist
/// or is out of the library's range.
#[verifier::external_body]
pub(crate) fn ymd_to_epoch_day(y: i32, m: u32, d: u32) -> (r: Option<i64>)
    ensures
        r == epoch_day_of_ymd(y as int, m as int, d as int),
{
    match chrono::NaiveDate::from_ymd_opt(y, m, d) {
        Some(nd) => Some(nd.to_epoch_days() as i64),
        None => None,
    }
}

/// Relies on `chrono::Local::now`: the current wall-clock instant as
/// milliseconds of local civil time since 1970-01-01 00:00:00 local time.
/// Nothing can be promised of the clock's reading.
#[verifier::external_body]
pub(crate) fn local_now_ms() -> i64 {
    chrono::Local::now().naive_local().and_utc().timestamp_millis()
}

/// The RFC 3339 text, seconds precision and `Z` suffix, of a wall-clock
/// millisecond timestamp read as UTC. A pure function of the timestamp.
pub uninterp spec fn utc_rfc3339_text(ms: int) -> Seq<char>;

/// Timestamps up to this (the start of the formattable-day window's last
/// day) are well inside the calendar library's representable range.
pub const UTC_TEXT_MAX_MS: i64 = 172800000000000;

/// Relies on `chrono::DateTime::from_timestamp_millis` and
/// `to_rfc3339_opts`: formats the wall clock as an RFC 3339 instant with a
/// `Z` offset, `None` only out of the library's range, and timestamps from
/// the epoch through `UTC_TEXT_MAX_MS` are well inside it.
#[verifier::external_body]
pub(crate) fn utc_rfc3339_of_ms(ms: i64) -> (r: Option<String>)
    ensures
        r matches Some(s) ==> s@ == utc_rfc3339_text(ms as int),
        0 <= ms <= UTC_TEXT_MAX_MS ==> r is Some,
{
    match chrono::DateTime::<chrono::Utc>::from_timestamp_millis(ms) {
        Some(dt) => Some(dt.to_rfc3339_opts(chrono::SecondsFormat::Secs, true)),
        None => None,
    }
}

/// Relies on `chrono::TimeZone::from_local_datetime` and `to_rfc3339`:
/// formats the wall clock as an RFC 3339 instant carrying the machine's
/// local offset. The offset depends on the machine, so nothing more is
/// stated of the text.
#[verifier::external_body]
pub(crate) fn local_rfc3339_of_ms(ms: i64) -> Option<String> {
    match chrono::DateTime::<chrono::Utc>::from_timestamp_millis(ms) {
        Some(dt) => match chrono::Local.from_local_datetime(&dt.naive_utc()).single() {
            Some(l) => Some(l.to_rfc3339()),
            None => None,
        },
        None => None,
    }
}

} // verus!
