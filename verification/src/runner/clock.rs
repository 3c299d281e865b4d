//! The calendar and clock that the time and conversion queries use (chrono).
//! A moment is held as plain values: seconds since the Unix epoch and the
//! nanoseconds within that second.

use vstd::prelude::*;
use ::chrono::{DateTime, Local, NaiveDate, NaiveDateTime, TimeZone, Utc};

verus! {

/// Seconds of the Unix epoch beyond which no chrono date lies (about 262 000 years).
pub const MOMENT_SECS_BOUND: i64 = 10_000_000_000_000;

/// A moment: `secs` since 1970-01-01T00:00:00Z and `nanos` within that second
/// (beyond 999 999 999 only during a leap second).
#[derive(Debug, Clone, Copy, PartialEq, Eq, Structural)]
pub struct Moment {
    pub secs: i64,
    pub nanos: u32,
}

/// Whether a moment lies within the range of dates that chrono represents.
pub open spec fn moment_in_range(m: Moment) -> bool {
    -MOMENT_SECS_BOUND < m.secs < MOMENT_SECS_BOUND && m.nanos < 2_000_000_000
}

/// Milliseconds since the Unix epoch (`DateTime::timestamp_millis`).
pub open spec fn moment_millis(m: Moment) -> int {
    m.secs * 1000 + m.nanos / 1_000_000
}

/// `DateTime::timestamp_millis` of chrono: `secs * 1000` plus the whole
/// milliseconds of `nanos`.
pub fn millis_of(m: &Moment) -> (r: i64)
    requires
        moment_in_range(*m),
    ensures
        r == moment_millis(*m),
{
    m.secs * 1000 + (m.nanos / 1_000_000) as i64
}

/// `Local::now` of chrono: the current moment. Which moment is not stated.
#[verifier::external_body]
pub(crate) fn now_local() -> (m: Moment)
    ensures
        moment_in_range(m),
{
    let now = Local::now();
    Moment { secs: now.timestamp(), nanos: now.timestamp_subsec_nanos() }
}

/// `Utc::now` of chrono: the current moment. Which moment is not stated.
#[verifier::external_body]
pub(crate) fn now_utc() -> (m: Moment)
    ensures
        moment_in_range(m),
{
    let now = Utc::now();
    Moment { secs: now.timestamp(), nanos: now.timestamp_subsec_nanos() }
}

/// Whether chrono's `Utc::timestamp_opt(secs, nanos)` gives a date-time (`single()`
/// is `Some`).
pub uninterp spec fn utc_timestamp_exists(secs: i64, nanos: u32) -> bool;

/// `Utc::timestamp_opt(secs, nanos).single().is_some()` of chrono.
#[verifier::external_body]
pub(crate) fn utc_timestamp_valid(secs: i64, nanos: u32) -> (r: bool)
    ensures
        r == utc_timestamp_exists(secs, nanos),
{
    Utc.timestamp_opt(secs, nanos).single().is_some()
}

/// The strftime pattern of a local date and time.
pub const LOCAL_DATETIME_PATTERN: &'static str = "%Y-%m-%d %H:%M:%S";

/// The strftime pattern of a local time of day.
pub const LOCAL_TIME_PATTERN: &'static str = "%H:%M:%S";

/// The strftime pattern of a local RFC 3339 date-time with its offset.
pub const LOCAL_RFC3339_PATTERN: &'static str = "%Y-%m-%dT%H:%M:%S%:z";

/// The strftime pattern of an ISO 8601 UTC date-time.
pub const ISO8601_PATTERN: &'static str = "%Y-%m-%dT%H:%M:%SZ";

/// The strftime pattern of a UTC date-time with the zone's name.
pub const UTC_PATTERN: &'static str = "%Y-%m-%d %H:%M:%S UTC";

/// The strftime patterns that the queries render with. Each is made of items that
/// chrono knows, so formatting with it cannot fail.
pub open spec fn supported_pattern(pattern: Seq<char>) -> bool {
    ||| pattern == LOCAL_DATETIME_PATTERN@
    ||| pattern == LOCAL_TIME_PATTERN@
    ||| pattern == LOCAL_RFC3339_PATTERN@
    ||| pattern == ISO8601_PATTERN@
    ||| pattern == UTC_PATTERN@
}

/// Text that chrono's `format` gives for the UTC date-time at `secs` / `nanos` with
/// the strftime `pattern`.
pub uninterp spec fn utc_formatted(secs: i64, nanos: u32, pattern: Seq<char>) -> Seq<char>;

/// `Utc::timestamp_opt(secs, nanos).single()` of chrono, then
/// `format(pattern).to_string()`: `None` exactly where there is no such date-time.
/// The text follows chrono's calendar; it is named, not written out. An unknown
/// strftime item would make `to_string` panic, so the pattern is one of the known ones.
#[verifier::external_body]
pub(crate) fn format_utc(secs: i64, nanos: u32, pattern: &str) -> (r: Option<String>)
    requires
        supported_pattern(pattern@),
    ensures
        match r {
            Some(s) => utc_timestamp_exists(secs, nanos) && s@ == utc_formatted(secs, nanos, pattern@),
            None => !utc_timestamp_exists(secs, nanos),
        },
{
    match Utc.timestamp_opt(secs, nanos).single() {
        Some(d) => Some(d.format(pattern).to_string()),
        None => None,
    }
}

/// Text that chrono's `format` gives, with the strftime `pattern`, for the date-time
/// at `secs` / `nanos` seen at the fixed offset of `offset` seconds east of UTC
/// (a `DateTime<FixedOffset>`).
pub uninterp spec fn offset_formatted(secs: i64, nanos: u32, offset: i32, pattern: Seq<char>) -> Seq<char>;

/// Whether `text` is the rendering with `pattern` of the moment `secs` / `nanos` at
/// some offset of less than a day from UTC: what the machine's time zone gives, for
/// whichever offset it has there.
pub open spec fn local_rendering(secs: i64, nanos: u32, pattern: Seq<char>, text: Seq<char>) -> bool {
    exists|offset: i32| -86400 < offset < 86400 && text == offset_formatted(secs, nanos, offset, pattern)
}

/// `Utc::timestamp_opt(secs, nanos).single()` of chrono, then `with_timezone(&Local)`
/// and `format(pattern).to_string()`: `None` exactly where there is no such date-time.
/// chrono's `Local` has `FixedOffset` as its offset type, so the text is the moment
/// rendered at the offset that the machine's time zone has then; which offset that is
/// is not stated, only that chrono keeps it under a day.
#[verifier::external_body]
pub(crate) fn format_local(secs: i64, nanos: u32, pattern: &str) -> (r: Option<String>)
    requires
        supported_pattern(pattern@),
    ensures
        r is Some <==> utc_timestamp_exists(secs, nanos),
        r matches Some(s) ==> exists|offset: i32|
            -86400 < offset < 86400 && s@ == offset_formatted(secs, nanos, offset, pattern@),
{
    match Utc.timestamp_opt(secs, nanos).single() {
        Some(d) => Some(d.with_timezone(&Local).format(pattern).to_string()),
        None => None,
    }
}

/// Whether `y` is a leap year of the Gregorian calendar.
pub open spec fn is_leap_year(y: int) -> bool {
    (y % 4 == 0 && y % 100 != 0) || y % 400 == 0
}

/// Number of days in month `m` (1 to 12) of year `y`.
pub open spec fn days_in_month(y: int, m: int) -> int {
    if m == 2 {
        if is_leap_year(y) {
            29
        } else {
            28
        }
    } else if m == 4 || m == 6 || m == 9 || m == 11 {
        30
    } else {
        31
    }
}

/// Number of days in the months of year `y` before month `m`.
pub open spec fn days_before_month(y: int, m: int) -> int
    decreases m,
{
    if m <= 1 {
        0
    } else {
        days_before_month(y, m - 1) + days_in_month(y, m - 1)
    }
}

/// Number of leap years from year 1 to year `y - 1` (for `y >= 1`).
pub open spec fn leap_years_before(y: int) -> int {
    (y - 1) / 4 - (y - 1) / 100 + (y - 1) / 400
}

/// Days from 1970-01-01 to the date `y`-`m`-`d` of the Gregorian calendar.
pub open spec fn days_since_epoch(y: int, m: int, d: int) -> int {
    365 * (y - 1970) + (leap_years_before(y) - leap_years_before(1970)) + days_before_month(y, m) + (d - 1)
}

/// Seconds from 1970-01-01T00:00:00 to the date and time given by its fields.
pub open spec fn calendar_seconds(y: int, m: int, d: int, h: int, mi: int, s: int) -> int {
    days_since_epoch(y, m, d) * 86400 + h * 3600 + mi * 60 + s
}

/// The number that the two ASCII digits at `i` and `i + 1` of `t` write.
pub open spec fn two_digits(t: Seq<char>, i: int) -> int {
    crate::text::digit_value(t[i]) * 10 + crate::text::digit_value(t[i + 1])
}

/// Whether `t` starts with a date `YYYY<sep>MM<sep>DD` written in ASCII digits.
pub open spec fn date_shape(t: Seq<char>, sep: char) -> bool {
    &&& t.len() >= 10
    &&& crate::text::is_digit(t[0]) && crate::text::is_digit(t[1]) && crate::text::is_digit(t[2])
        && crate::text::is_digit(t[3])
    &&& t[4] == sep && crate::text::is_digit(t[5]) && crate::text::is_digit(t[6])
    &&& t[7] == sep && crate::text::is_digit(t[8]) && crate::text::is_digit(t[9])
}

/// Whether the date in `t` is followed by `<mid>hh:mm`, and by `:ss` where `seconds`.
pub open spec fn time_shape(t: Seq<char>, mid: char, seconds: bool) -> bool {
    &&& t.len() >= 16
    &&& t[10] == mid && crate::text::is_digit(t[11]) && crate::text::is_digit(t[12])
    &&& t[13] == ':' && crate::text::is_digit(t[14]) && crate::text::is_digit(t[15])
    &&& seconds ==> t.len() >= 19 && t[16] == ':' && crate::text::is_digit(t[17]) && crate::text::is_digit(t[18])
}

/// Which of the wall-clock forms `t` is written in, in the order the date patterns
/// are tried: 0 `YYYY-MM-DD hh:mm:ss`, 1 `YYYY-MM-DDThh:mm:ss`, 2 `YYYY-MM-DD hh:mm`,
/// 3 `YYYY-MM-DDThh:mm`, 4 `YYYY/MM/DD hh:mm:ss`, 5 `YYYY/MM/DD hh:mm`, 6
/// `YYYY-MM-DD`, 7 `YYYY/MM/DD`.
pub open spec fn wall_clock_form(t: Seq<char>) -> Option<int> {
    if t.len() == 19 && date_shape(t, '-') && time_shape(t, ' ', true) {
        Some(0)
    } else if t.len() == 19 && date_shape(t, '-') && time_shape(t, 'T', true) {
        Some(1)
    } else if t.len() == 16 && date_shape(t, '-') && time_shape(t, ' ', false) {
        Some(2)
    } else if t.len() == 16 && date_shape(t, '-') && time_shape(t, 'T', false) {
        Some(3)
    } else if t.len() == 19 && date_shape(t, '/') && time_shape(t, ' ', true) {
        Some(4)
    } else if t.len() == 16 && date_shape(t, '/') && time_shape(t, ' ', false) {
        Some(5)
    } else if t.len() == 10 && date_shape(t, '-') {
        Some(6)
    } else if t.len() == 10 && date_shape(t, '/') {
        Some(7)
    } else {
        None
    }
}

/// The form of a wall-clock text and the seconds it writes, from 1970-01-01T00:00:00
/// on the wall clock: year (from 1) first, then month, then the day of that month,
/// then hours (0 to 23), minutes and seconds (0 to 59); a missing time of day is
/// midnight and missing seconds are zero. `None` where `t` is in none of the forms or
/// names no such date and time.
pub open spec fn wall_clock_text(t: Seq<char>) -> Option<(int, int)> {
    match wall_clock_form(t) {
        None => None,
        Some(k) => {
            let y = two_digits(t, 0) * 100 + two_digits(t, 2);
            let m = two_digits(t, 5);
            let d = two_digits(t, 8);
            let h = if k <= 5 { two_digits(t, 11) } else { 0 };
            let mi = if k <= 5 { two_digits(t, 14) } else { 0 };
            let sec = if k == 0 || k == 1 || k == 4 { two_digits(t, 17) } else { 0 };
            if y >= 1 && 1 <= m <= 12 && 1 <= d <= days_in_month(y, m) && h <= 23 && mi <= 59 && sec <= 59 {
                Some((k, calendar_seconds(y, m, d, h, mi, sec)))
            } else {
                None
            }
        },
    }
}

/// What a pattern of wall-clock form `k` reads from a wall-clock text: its seconds
/// where the text is in that form, else nothing.
pub open spec fn form_reading(t: Seq<char>, k: int) -> Option<i64> {
    if (wall_clock_text(t)->0).0 == k {
        Some((wall_clock_text(t)->0).1 as i64)
    } else {
        None
    }
}

/// A wall-clock text is ASCII, of at most 19 characters, starts with four digits and
/// holds a character that is not a digit.
pub proof fn lemma_wall_clock_shape(t: Seq<char>)
    requires
        wall_clock_form(t) is Some,
    ensures
        t.len() <= 19,
        crate::text::all_ascii(t),
        starts_with_four_digits(t),
        !crate::text::all_digits(t),
{
    assert forall|i: int| 0 <= i < t.len() implies t[i] <= '\x7f' by {
        if i == 0 {
        } else if i == 1 {
        } else if i == 2 {
        } else if i == 3 {
        } else if i == 4 {
        } else if i == 5 {
        } else if i == 6 {
        } else if i == 7 {
        } else if i == 8 {
        } else if i == 9 {
        } else if i == 10 {
        } else if i == 11 {
        } else if i == 12 {
        } else if i == 13 {
        } else if i == 14 {
        } else if i == 15 {
        } else if i == 16 {
        } else if i == 17 {
        } else if i == 18 {
        }
    }
    assert(!crate::text::is_digit(t[4]));
}

proof fn lemma_days_before_month_bound(y: int, m: int)
    requires
        m <= 13,
    ensures
        0 <= days_before_month(y, m) <= 372,
        m >= 1 ==> days_before_month(y, m) <= (m - 1) * 31,
    decreases m,
{
    if m > 1 {
        lemma_days_before_month_bound(y, m - 1);
    }
}

/// The seconds of a wall-clock text fit an `i64` with room to spare: years 1 to 9999
/// lie within about ±320 000 000 000 seconds of 1970.
pub proof fn lemma_wall_clock_range(t: Seq<char>)
    requires
        wall_clock_text(t) is Some,
    ensures
        -100_000_000_000 < (wall_clock_text(t)->0).1 < 400_000_000_000,
{
    let y = two_digits(t, 0) * 100 + two_digits(t, 2);
    let m = two_digits(t, 5);
    lemma_days_before_month_bound(y, m);
    assert(two_digits(t, 0) <= 99 && two_digits(t, 2) <= 99);
    assert(y <= 9999);
}

/// Whether `t` starts with four ASCII digits.
pub open spec fn starts_with_four_digits(t: Seq<char>) -> bool {
    t.len() >= 4 && crate::text::is_digit(t[0]) && crate::text::is_digit(t[1]) && crate::text::is_digit(t[2])
        && crate::text::is_digit(t[3])
}

/// Seconds since the Unix epoch of the RFC 3339 date-time in `text`, as chrono's
/// `DateTime::parse_from_rfc3339` reads it; `None` where chrono refuses the text.
pub uninterp spec fn rfc3339_seconds(text: Seq<char>) -> Option<i64>;

/// `DateTime::parse_from_rfc3339(text)` of chrono, then `timestamp()`. An ASCII text
/// of at most 19 characters (19 bytes) has no room for the offset that RFC 3339
/// requires after the seconds, and chrono refuses it.
#[verifier::external_body]
pub(crate) fn parse_rfc3339(text: &str) -> (r: Option<i64>)
    ensures
        r == rfc3339_seconds(text@),
        text@.len() <= 19 && crate::text::all_ascii(text@) ==> r is None,
{
    match DateTime::parse_from_rfc3339(text) {
        Ok(d) => Some(d.timestamp()),
        Err(_) => None,
    }
}

/// Seconds since the Unix epoch of the RFC 2822 date-time in `text`, as chrono's
/// `DateTime::parse_from_rfc2822` reads it; `None` where chrono refuses the text.
pub uninterp spec fn rfc2822_seconds(text: Seq<char>) -> Option<i64>;

/// `DateTime::parse_from_rfc2822(text)` of chrono, then `timestamp()`. RFC 2822
/// starts with an optional weekday name and a day of at most two digits followed by
/// a space, so chrono refuses a text that starts with four digits.
#[verifier::external_body]
pub(crate) fn parse_rfc2822(text: &str) -> (r: Option<i64>)
    ensures
        r == rfc2822_seconds(text@),
        starts_with_four_digits(text@) ==> r is None,
{
    match DateTime::parse_from_rfc2822(text) {
        Ok(d) => Some(d.timestamp()),
        Err(_) => None,
    }
}

/// The date-time that chrono's `NaiveDateTime::parse_from_str` reads from `text` with
/// the strftime `pattern`, as seconds since 1970-01-01T00:00:00 in the same (unnamed)
/// time zone; `None` where chrono refuses the text.
pub uninterp spec fn naive_datetime_seconds(text: Seq<char>, pattern: Seq<char>) -> Option<i64>;

/// `NaiveDateTime::parse_from_str(text, pattern)` of chrono, then
/// `and_utc().timestamp()`. For the six date-time patterns that the queries use and a
/// text in one of the wall-clock forms (`wall_clock_text`), chrono reads the text
/// exactly when the pattern is the text's own form: `%Y`, `%m`, `%d`, `%H`, `%M` and
/// `%S` are the year, month, day, hours, minutes and seconds, a `-`, `/`, `T` or `:`
/// must be met as written, a missing field ends the text too early and a field left
/// over makes it too long.
#[verifier::external_body]
pub(crate) fn parse_naive_datetime(text: &str, pattern: &str) -> (r: Option<i64>)
    ensures
        r == naive_datetime_seconds(text@, pattern@),
        pattern@ == "%Y-%m-%d %H:%M:%S"@ && wall_clock_text(text@) is Some ==> r == form_reading(text@, 0),
        pattern@ == "%Y-%m-%dT%H:%M:%S"@ && wall_clock_text(text@) is Some ==> r == form_reading(text@, 1),
        pattern@ == "%Y-%m-%d %H:%M"@ && wall_clock_text(text@) is Some ==> r == form_reading(text@, 2),
        pattern@ == "%Y-%m-%dT%H:%M"@ && wall_clock_text(text@) is Some ==> r == form_reading(text@, 3),
        pattern@ == "%Y/%m/%d %H:%M:%S"@ && wall_clock_text(text@) is Some ==> r == form_reading(text@, 4),
        pattern@ == "%Y/%m/%d %H:%M"@ && wall_clock_text(text@) is Some ==> r == form_reading(text@, 5),
{
    match NaiveDateTime::parse_from_str(text, pattern) {
        Ok(n) => Some(n.and_utc().timestamp()),
        Err(_) => None,
    }
}

/// The midnight of the date that chrono's `NaiveDate::parse_from_str` reads from
/// `text` with the strftime `pattern`, as seconds since 1970-01-01T00:00:00 in the same
/// (unnamed) time zone; `None` where chrono refuses the text.
pub uninterp spec fn naive_date_seconds(text: Seq<char>, pattern: Seq<char>) -> Option<i64>;

/// `NaiveDate::parse_from_str(text, pattern)` of chrono, then
/// `and_hms_opt(0, 0, 0)` and `and_utc().timestamp()`. For the two date patterns that
/// the queries use and a text in one of the wall-clock forms, chrono reads the text
/// exactly when it is a date of the pattern's own form (a time of day left over makes
/// it too long), and gives the seconds of that date's midnight.
#[verifier::external_body]
pub(crate) fn parse_naive_date(text: &str, pattern: &str) -> (r: Option<i64>)
    ensures
        r == naive_date_seconds(text@, pattern@),
        pattern@ == "%Y-%m-%d"@ && wall_clock_text(text@) is Some ==> r == form_reading(text@, 6),
        pattern@ == "%Y/%m/%d"@ && wall_clock_text(text@) is Some ==> r == form_reading(text@, 7),
{
    match NaiveDate::parse_from_str(text, pattern) {
        Ok(d) => match d.and_hms_opt(0, 0, 0) {
            Some(n) => Some(n.and_utc().timestamp()),
            None => None,
        },
        Err(_) => None,
    }
}

/// `Local::from_local_datetime` of chrono on the wall-clock time `naive_secs`
/// (seconds since 1970-01-01T00:00:00 on the wall clock), then `single()` and
/// `timestamp()`: the Unix seconds of that wall-clock time in the machine's time zone,
/// or `None` where it is ambiguous or skipped there. Which seconds depends on that
/// time zone and is not stated, only that they differ from `naive_secs` by the zone's
/// offset there, which chrono keeps under a day.
#[verifier::external_body]
pub(crate) fn local_seconds_of_wall_clock(naive_secs: i64) -> (r: Option<i64>)
    ensures
        r matches Some(v) ==> naive_secs - 86400 < v < naive_secs + 86400,
{
    match DateTime::from_timestamp(naive_secs, 0) {
        Some(d) => match Local.from_local_datetime(&d.naive_utc()).single() {
            Some(l) => Some(l.timestamp()),
            None => None,
        },
        None => None,
    }
}

} // verus!
