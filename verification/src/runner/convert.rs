//! Timestamp and date-string conversion queries. A run of at least nine digits is a
//! Unix timestamp (thirteen digits and more: milliseconds); text with a separator is
//! read as a date-time. Both directions end in absolute Unix seconds, which the match
//! id carries as `conv:<kind>:<secs>:<format>`.

use vstd::prelude::*;
use crate::runner::clock::{format_local, format_utc, local_seconds_of_wall_clock, naive_date_seconds,
    naive_datetime_seconds, parse_naive_date, parse_naive_datetime, parse_rfc2822, parse_rfc3339,
    rfc2822_seconds, rfc3339_seconds, utc_formatted, utc_timestamp_exists, utc_timestamp_valid};
use crate::runner::kmatch::{KMatch, Relevance, new_match, CATEGORY, CATEGORY_RELEVANCE};
use crate::runner::clock::{lemma_wall_clock_range, lemma_wall_clock_shape, wall_clock_text, local_rendering, ISO8601_PATTERN, LOCAL_DATETIME_PATTERN, LOCAL_RFC3339_PATTERN,
    UTC_PATTERN};
use crate::text::{lemma_dec_int_chars, lemma_parse_dec_int, lemma_split_once_at, all_digits, chars_of, dec_int, i64_to_string, parse_i64, parse_i64_spec, same_text,
    split_once, split_once_spec, str_len, trim, trim_spec};

verus! {

broadcast use vstd::string::group_string_axioms;

/// A conversion query, both directions held as absolute Unix seconds.
#[derive(Debug, Clone, Copy, PartialEq, Eq, Structural)]
pub enum ConvertQuery {
    /// The query is a Unix timestamp (seconds or milliseconds): show readable times.
    Timestamp { secs: i64 },
    /// The query is a date string: show its timestamps.
    Datetime { secs: i64 },
}

/// Latest second that a timestamp query may name (2300-01-01T00:00:00Z).
pub const MAX_TIMESTAMP_SECS: i64 = 10_459_718_400;

/// The seconds that a digits-only query of at least nine bytes names: thirteen
/// digits and more are milliseconds; the result lies from 0 to `MAX_TIMESTAMP_SECS`.
pub open spec fn timestamp_secs(s: Seq<char>) -> Option<i64> {
    if str_len(s) < 9 || !all_digits(s) {
        None
    } else {
        match parse_i64_spec(s) {
            None => None,
            Some(v) => {
                let secs = if str_len(s) >= 13 {
                    v / 1000
                } else {
                    v as int
                };
                if 0 <= secs <= MAX_TIMESTAMP_SECS {
                    Some(secs as i64)
                } else {
                    None
                }
            },
        }
    }
}

/// What the date-string reading makes of a query, before the machine's time zone is
/// consulted.
#[derive(Debug, Clone, Copy, PartialEq, Eq, Structural)]
pub enum DatetimeReading {
    /// The query has no character besides ASCII digits.
    NotDate,
    /// A date-time with its offset (RFC 3339, RFC 2822): these Unix seconds.
    Absolute(i64),
    /// A wall-clock date-time without offset: seconds since 1970-01-01T00:00:00 on the
    /// wall clock, to be read in the machine's time zone.
    WallClock(i64),
    /// No format reads the query.
    Unreadable,
}

/// The wall-clock date-time patterns, in the order they are tried.
pub open spec fn datetime_pattern(i: int) -> Seq<char> {
    if i == 0 {
        "%Y-%m-%d %H:%M:%S"@
    } else if i == 1 {
        "%Y-%m-%dT%H:%M:%S"@
    } else if i == 2 {
        "%Y-%m-%d %H:%M"@
    } else if i == 3 {
        "%Y-%m-%dT%H:%M"@
    } else if i == 4 {
        "%Y/%m/%d %H:%M:%S"@
    } else {
        "%Y/%m/%d %H:%M"@
    }
}

/// The date-only patterns, in the order they are tried.
pub open spec fn date_pattern(i: int) -> Seq<char> {
    if i == 0 {
        "%Y-%m-%d"@
    } else {
        "%Y/%m/%d"@
    }
}

/// Number of wall-clock date-time patterns.
pub const DATETIME_PATTERN_COUNT: usize = 6;

/// Number of date-only patterns.
pub const DATE_PATTERN_COUNT: usize = 2;

/// The first of the date-time patterns from `i` on that reads `s`, as wall-clock
/// seconds; then the first date-only pattern that does.
pub open spec fn wall_clock_from(s: Seq<char>, i: nat) -> Option<i64>
    decreases DATETIME_PATTERN_COUNT + DATE_PATTERN_COUNT - i,
{
    if i >= DATETIME_PATTERN_COUNT + DATE_PATTERN_COUNT {
        None
    } else if i < DATETIME_PATTERN_COUNT {
        match naive_datetime_seconds(s, datetime_pattern(i as int)) {
            Some(n) => Some(n),
            None => wall_clock_from(s, i + 1),
        }
    } else {
        match naive_date_seconds(s, date_pattern(i - DATETIME_PATTERN_COUNT)) {
            Some(n) => Some(n),
            None => wall_clock_from(s, i + 1),
        }
    }
}

/// How the trimmed query `s` reads as a date string: RFC 3339 first, then RFC 2822,
/// then the wall-clock patterns.
pub open spec fn datetime_reading(s: Seq<char>) -> DatetimeReading {
    if all_digits(s) {
        DatetimeReading::NotDate
    } else if rfc3339_seconds(s) is Some {
        DatetimeReading::Absolute(rfc3339_seconds(s)->0)
    } else if rfc2822_seconds(s) is Some {
        DatetimeReading::Absolute(rfc2822_seconds(s)->0)
    } else {
        match wall_clock_from(s, 0) {
            Some(n) => DatetimeReading::WallClock(n),
            None => DatetimeReading::Unreadable,
        }
    }
}

/// Whether every character of `s` is an ASCII digit.
fn digits_only(s: &str) -> (r: bool)
    ensures
        r == all_digits(s@),
{
    let v = chars_of(s);
    let mut i: usize = 0;
    while i < v.len()
        invariant
            v@ == s@,
            i <= v.len(),
            forall|j: int| 0 <= j < i ==> crate::text::is_digit(#[trigger] v@[j]),
        decreases v.len() - i,
    {
        if !(v[i] >= '0' && v[i] <= '9') {
            return false;
        }
        i = i + 1;
    }
    true
}

/// The absolute seconds that the trimmed query `s` names as a Unix timestamp.
pub fn parse_timestamp(s: &str) -> (r: Option<i64>)
    ensures
        r == timestamp_secs(s@),
{
    if s.len() < 9 || !digits_only(s) {
        return None;
    }
    let v = match parse_i64(s) {
        Some(v) => v,
        None => return None,
    };
    let secs: i64 = if s.len() >= 13 {
        v / 1000
    } else {
        v
    };
    if 0 <= secs && secs <= MAX_TIMESTAMP_SECS {
        Some(secs)
    } else {
        None
    }
}

fn datetime_pattern_at(i: usize) -> (p: &'static str)
    requires
        i < DATETIME_PATTERN_COUNT,
    ensures
        p@ == datetime_pattern(i as int),
{
    if i == 0 {
        "%Y-%m-%d %H:%M:%S"
    } else if i == 1 {
        "%Y-%m-%dT%H:%M:%S"
    } else if i == 2 {
        "%Y-%m-%d %H:%M"
    } else if i == 3 {
        "%Y-%m-%dT%H:%M"
    } else if i == 4 {
        "%Y/%m/%d %H:%M:%S"
    } else {
        "%Y/%m/%d %H:%M"
    }
}

fn date_pattern_at(i: usize) -> (p: &'static str)
    requires
        i < DATE_PATTERN_COUNT,
    ensures
        p@ == date_pattern(i as int),
{
    if i == 0 {
        "%Y-%m-%d"
    } else {
        "%Y/%m/%d"
    }
}

/// Reads the trimmed query `s` as a date string, up to the time-zone step. A text in
/// one of the wall-clock forms (`YYYY-MM-DD hh:mm:ss` and the others of
/// `wall_clock_text`) that names a valid date and time is read as that calendar date
/// (year, then month, then day) and time of day on the wall clock.
pub fn read_datetime(s: &str) -> (r: DatetimeReading)
    ensures
        r == datetime_reading(s@),
        wall_clock_text(s@) matches Some((_, v)) ==> r == DatetimeReading::WallClock(v as i64),
{
    proof {
        if wall_clock_text(s@) is Some {
            lemma_wall_clock_shape(s@);
        }
    }
    if digits_only(s) {
        return DatetimeReading::NotDate;
    }
    if let Some(t) = parse_rfc3339(s) {
        return DatetimeReading::Absolute(t);
    }
    if let Some(t) = parse_rfc2822(s) {
        return DatetimeReading::Absolute(t);
    }
    let mut i: usize = 0;
    while i < DATETIME_PATTERN_COUNT + DATE_PATTERN_COUNT
        invariant
            i <= DATETIME_PATTERN_COUNT + DATE_PATTERN_COUNT,
            wall_clock_from(s@, 0) == wall_clock_from(s@, i as nat),
            !all_digits(s@),
            rfc3339_seconds(s@) is None,
            rfc2822_seconds(s@) is None,
            wall_clock_text(s@) matches Some((k, _)) ==> i <= k,
        decreases DATETIME_PATTERN_COUNT + DATE_PATTERN_COUNT - i,
    {
        let found = if i < DATETIME_PATTERN_COUNT {
            parse_naive_datetime(s, datetime_pattern_at(i))
        } else {
            parse_naive_date(s, date_pattern_at(i - DATETIME_PATTERN_COUNT))
        };
        if let Some(n) = found {
            assert(wall_clock_from(s@, i as nat) == Some(n));
            return DatetimeReading::WallClock(n);
        }
        i = i + 1;
    }
    DatetimeReading::Unreadable
}

/// The absolute seconds of the trimmed query `s` read as a date string: those of an
/// offset date-time as they are; a wall-clock one read in the machine's time zone,
/// which may find it ambiguous or skipped (then `None`), and otherwise gives seconds
/// that differ from the wall-clock ones by the zone's offset, under a day.
pub fn parse_datetime(s: &str) -> (r: Option<i64>)
    ensures
        wall_clock_text(s@) matches Some((_, w)) ==> (r is None || (r matches Some(v) && w - 86400 < v < w
            + 86400)),
        match datetime_reading(s@) {
            DatetimeReading::Absolute(t) => r == Some(t),
            DatetimeReading::WallClock(n) => r matches Some(v) ==> n - 86400 < v < n + 86400,
            _ => r is None,
        },
{
    proof {
        if wall_clock_text(s@) is Some {
            lemma_wall_clock_range(s@);
        }
    }
    match read_datetime(s) {
        DatetimeReading::Absolute(t) => Some(t),
        DatetimeReading::WallClock(n) => local_seconds_of_wall_clock(n),
        _ => None,
    }
}

/// What a conversion query is, for the trimmed text `s`, where the reading does not
/// go through the machine's time zone.
pub open spec fn convert_query_spec(s: Seq<char>) -> Option<ConvertQuery> {
    if s.len() == 0 {
        None
    } else {
        match timestamp_secs(s) {
            Some(t) => Some(ConvertQuery::Timestamp { secs: t }),
            None => match datetime_reading(s) {
                DatetimeReading::Absolute(t) => Some(ConvertQuery::Datetime { secs: t }),
                _ => None,
            },
        }
    }
}

/// Whether reading `s` as a conversion query goes through the machine's time zone.
pub open spec fn needs_time_zone(s: Seq<char>) -> bool {
    &&& s.len() > 0
    &&& timestamp_secs(s) is None
    &&& datetime_reading(s) is WallClock
}

/// Parses a conversion query; `None` when the query is neither a timestamp nor a
/// readable date string. A wall-clock date string gives a `Datetime` query, less than
/// a day from its wall-clock seconds, or, where the machine's time zone finds it
/// ambiguous or skipped, `None`. A query in a wall-clock form such as
/// `YYYY-MM-DD hh:mm:ss` that names a valid date and time names that calendar date
/// (year, then month, then day) and time on the wall clock, so its seconds lie within
/// a day of the calendar seconds (equal to them where the machine's time zone is UTC).
pub fn parse_convert_query(query: &str) -> (r: Option<ConvertQuery>)
    ensures
        wall_clock_text(trim_spec(query@)) matches Some((_, w)) ==> (r is None || (r matches Some(
            ConvertQuery::Datetime { secs },
        ) && w - 86400 < secs < w + 86400)),
        ({
            let s = trim_spec(query@);
            if needs_time_zone(s) {
                r is None || (r matches Some(ConvertQuery::Datetime { secs }) && (datetime_reading(
                    s,
                ) matches DatetimeReading::WallClock(n) && n - 86400 < secs < n + 86400))
            } else {
                r == convert_query_spec(s)
            }
        }),
{
    let s = trim(query);
    if s.is_empty() {
        return None;
    }
    if let Some(secs) = parse_timestamp(s) {
        return Some(ConvertQuery::Timestamp { secs });
    }
    if let Some(secs) = parse_datetime(s) {
        return Some(ConvertQuery::Datetime { secs });
    }
    None
}

/// Whether `render` gives a value for the direction `kind` (`ts` or `dt`), the
/// seconds `secs` and the format key `fmt`: chrono must have a UTC date-time at
/// `secs`, the pair must be a row of its direction, and milliseconds must fit in
/// an `i64`.
pub open spec fn render_defined(kind: Seq<char>, secs: i64, fmt: Seq<char>) -> bool {
    &&& utc_timestamp_exists(secs, 0)
    &&& if kind == "ts"@ {
        fmt == "local"@ || fmt == "utc"@ || fmt == "rfc3339"@ || fmt == "iso8601"@
    } else if kind == "dt"@ {
        ||| fmt == "unix"@
        ||| fmt == "unixms"@ && i64::MIN <= secs * 1000 <= i64::MAX
        ||| fmt == "local"@
    } else {
        false
    }
}

/// The text that `render` gives, where it does not depend on the machine's time zone:
/// the UTC and ISO 8601 renderings of a timestamp, the seconds and milliseconds of a
/// date string. `None` for the renderings in the local time zone.
pub open spec fn render_exact(kind: Seq<char>, secs: i64, fmt: Seq<char>) -> Option<Seq<char>> {
    if kind == "ts"@ && fmt == "utc"@ {
        Some(utc_formatted(secs, 0, UTC_PATTERN@))
    } else if kind == "ts"@ && fmt == "iso8601"@ {
        Some(utc_formatted(secs, 0, ISO8601_PATTERN@))
    } else if kind == "dt"@ && fmt == "unix"@ {
        Some(dec_int(secs as int))
    } else if kind == "dt"@ && fmt == "unixms"@ {
        Some(dec_int(secs * 1000))
    } else {
        None
    }
}

/// The strftime pattern of the renderings in the machine's time zone: the local and
/// RFC 3339 texts of a timestamp, the local text of a date string.
pub open spec fn render_local_pattern(kind: Seq<char>, fmt: Seq<char>) -> Option<Seq<char>> {
    if kind == "ts"@ && fmt == "local"@ {
        Some(LOCAL_DATETIME_PATTERN@)
    } else if kind == "ts"@ && fmt == "rfc3339"@ {
        Some(LOCAL_RFC3339_PATTERN@)
    } else if kind == "dt"@ && fmt == "local"@ {
        Some(LOCAL_DATETIME_PATTERN@)
    } else {
        None
    }
}

/// Whether `r` is what `render` may give for these arguments: a value exactly where
/// one is defined; the exact text where it does not depend on the time zone, and the
/// rendering with the row's pattern at the zone's offset where it does.
pub open spec fn render_ok(kind: Seq<char>, secs: i64, fmt: Seq<char>, r: Option<Seq<char>>) -> bool {
    &&& (r is Some <==> render_defined(kind, secs, fmt))
    &&& (r is Some && render_exact(kind, secs, fmt) is Some ==> r == render_exact(kind, secs, fmt))
    &&& (r is Some && render_local_pattern(kind, fmt) is Some ==> local_rendering(
        secs,
        0,
        render_local_pattern(kind, fmt)->0,
        r->0,
    ))
}

proof fn lemma_render_keys_distinct()
    ensures
        "ts"@ != "dt"@,
        "local"@ != "utc"@,
        "local"@ != "rfc3339"@,
        "local"@ != "iso8601"@,
        "utc"@ != "rfc3339"@,
        "utc"@ != "iso8601"@,
        "rfc3339"@ != "iso8601"@,
        "unix"@ != "unixms"@,
        "unix"@ != "local"@,
        "unixms"@ != "local"@,
{
    reveal_strlit("ts");
    reveal_strlit("dt");
    reveal_strlit("local");
    reveal_strlit("utc");
    reveal_strlit("rfc3339");
    reveal_strlit("iso8601");
    reveal_strlit("unix");
    reveal_strlit("unixms");
    assert("ts"@[0] != "dt"@[0]);
    assert("rfc3339"@[0] != "iso8601"@[0]);
    assert("local"@.len() == 5 && "utc"@.len() == 3 && "rfc3339"@.len() == 7 && "iso8601"@.len() == 7);
    assert("unix"@.len() == 4 && "unixms"@.len() == 6);
}

/// The copyable value of the row `fmt` for the direction `kind` and the seconds
/// `secs`; `None` where there is no such row or no such value.
pub fn render(kind: &str, secs: i64, fmt: &str) -> (r: Option<String>)
    ensures
        render_ok(kind@, secs, fmt@, match r {
            Some(s) => Some(s@),
            None => None,
        }),
{
    proof {
        lemma_render_keys_distinct();
    }
    if !utc_timestamp_valid(secs, 0) {
        return None;
    }
    if same_text(kind, "ts") {
        if same_text(fmt, "local") {
            format_local(secs, 0, LOCAL_DATETIME_PATTERN)
        } else if same_text(fmt, "utc") {
            format_utc(secs, 0, UTC_PATTERN)
        } else if same_text(fmt, "rfc3339") {
            format_local(secs, 0, LOCAL_RFC3339_PATTERN)
        } else if same_text(fmt, "iso8601") {
            format_utc(secs, 0, ISO8601_PATTERN)
        } else {
            None
        }
    } else if same_text(kind, "dt") {
        if same_text(fmt, "unix") {
            Some(i64_to_string(secs))
        } else if same_text(fmt, "unixms") {
            match secs.checked_mul(1000) {
                Some(ms) => Some(i64_to_string(ms)),
                None => None,
            }
        } else if same_text(fmt, "local") {
            format_local(secs, 0, LOCAL_DATETIME_PATTERN)
        } else {
            None
        }
    } else {
        None
    }
}

/// The direction key of a query: `ts` for a timestamp, `dt` for a date string.
pub open spec fn conv_kind(q: ConvertQuery) -> Seq<char> {
    match q {
        ConvertQuery::Timestamp { .. } => "ts"@,
        ConvertQuery::Datetime { .. } => "dt"@,
    }
}

/// The absolute seconds of a query.
pub open spec fn conv_secs(q: ConvertQuery) -> i64 {
    match q {
        ConvertQuery::Timestamp { secs } => secs,
        ConvertQuery::Datetime { secs } => secs,
    }
}

/// Number of rows of a direction.
pub open spec fn conv_row_count(q: ConvertQuery) -> nat {
    match q {
        ConvertQuery::Timestamp { .. } => 4,
        ConvertQuery::Datetime { .. } => 3,
    }
}

/// The format key of row `i` of the direction of `q`.
pub open spec fn conv_row_fmt(q: ConvertQuery, i: int) -> Seq<char> {
    match q {
        ConvertQuery::Timestamp { .. } => if i == 0 {
            "local"@
        } else if i == 1 {
            "utc"@
        } else if i == 2 {
            "rfc3339"@
        } else {
            "iso8601"@
        },
        ConvertQuery::Datetime { .. } => if i == 0 {
            "unix"@
        } else if i == 1 {
            "unixms"@
        } else {
            "local"@
        },
    }
}

/// The title of row `i` of the direction of `q`.
pub open spec fn conv_row_title(q: ConvertQuery, i: int) -> Seq<char> {
    match q {
        ConvertQuery::Timestamp { .. } => if i == 0 {
            "本地时间"@
        } else if i == 1 {
            "UTC 时间"@
        } else if i == 2 {
            "RFC3339"@
        } else {
            "ISO8601"@
        },
        ConvertQuery::Datetime { .. } => if i == 0 {
            "Unix 时间戳 (秒)"@
        } else if i == 1 {
            "Unix 时间戳 (毫秒)"@
        } else {
            "本地时间"@
        },
    }
}

/// The icon of row `i` of the direction of `q`.
pub open spec fn conv_row_icon(q: ConvertQuery, i: int) -> Seq<char> {
    match q {
        ConvertQuery::Timestamp { .. } => if i <= 1 {
            "clock"@
        } else {
            "text-x-generic"@
        },
        ConvertQuery::Datetime { .. } => if i <= 1 {
            "preferences-system-time"@
        } else {
            "clock"@
        },
    }
}

fn conv_row(q: &ConvertQuery, i: usize) -> (r: (&'static str, &'static str, &'static str))
    requires
        i < conv_row_count(*q),
    ensures
        r.0@ == conv_row_fmt(*q, i as int),
        r.1@ == conv_row_title(*q, i as int),
        r.2@ == conv_row_icon(*q, i as int),
{
    match q {
        ConvertQuery::Timestamp { .. } => if i == 0 {
            ("local", "本地时间", "clock")
        } else if i == 1 {
            ("utc", "UTC 时间", "clock")
        } else if i == 2 {
            ("rfc3339", "RFC3339", "text-x-generic")
        } else {
            ("iso8601", "ISO8601", "text-x-generic")
        },
        ConvertQuery::Datetime { .. } => if i == 0 {
            ("unix", "Unix 时间戳 (秒)", "preferences-system-time")
        } else if i == 1 {
            ("unixms", "Unix 时间戳 (毫秒)", "preferences-system-time")
        } else {
            ("local", "本地时间", "clock")
        },
    }
}

/// The rows among the first `n` of the direction of `q` that have a value, in order.
pub open spec fn conv_rows(q: ConvertQuery, n: nat) -> Seq<int>
    decreases n,
{
    if n == 0 {
        seq![]
    } else {
        let prev = conv_rows(q, (n - 1) as nat);
        if render_defined(conv_kind(q), conv_secs(q), conv_row_fmt(q, n - 1)) {
            prev.push(n - 1)
        } else {
            prev
        }
    }
}

/// The part after `conv:` of the id of row `i` of a conversion query:
/// `<kind>:<secs>:<fmt>`.
pub open spec fn conv_id_suffix(q: ConvertQuery, i: int) -> Seq<char> {
    conv_kind(q) + ":"@ + dec_int(conv_secs(q) as int) + ":"@ + conv_row_fmt(q, i)
}

/// The id of row `i` of a conversion query: `conv:<kind>:<secs>:<fmt>`.
pub open spec fn conv_match_id(q: ConvertQuery, i: int) -> Seq<char> {
    "conv:"@ + conv_id_suffix(q, i)
}

/// Whether `m` is the match of row `i` of the conversion query `q`.
pub open spec fn conv_match_ok(m: KMatch, q: ConvertQuery, i: int) -> bool {
    &&& m.id@ == conv_match_id(q, i)
    &&& m.text@ == conv_row_title(q, i)
    &&& m.icon@ == conv_row_icon(q, i)
    &&& m.category_relevance == CATEGORY_RELEVANCE
    &&& m.relevance == Relevance::Ranked(i as u32)
    &&& m.category@ == CATEGORY@
    &&& render_ok(conv_kind(q), conv_secs(q), conv_row_fmt(q, i), Some(m.subtext@))
}

/// Whether `r` holds one match per row of the direction of `q` that has a value, in
/// row order, each ranked by its row.
pub open spec fn conv_matches_ok(r: Seq<KMatch>, q: ConvertQuery) -> bool {
    let rows = conv_rows(q, conv_row_count(q));
    &&& r.len() == rows.len()
    &&& forall|j: int| 0 <= j < r.len() ==> conv_match_ok(#[trigger] r[j], q, rows[j])
}

/// The matches of a conversion query: one per row of its direction that has a value,
/// in row order, each ranked by its row.
pub fn build_convert_matches(query: &ConvertQuery) -> (r: Vec<KMatch>)
    ensures
        conv_matches_ok(r@, *query),
{
    let (kind, secs, count): (&'static str, i64, usize) = match query {
        ConvertQuery::Timestamp { secs } => ("ts", *secs, 4),
        ConvertQuery::Datetime { secs } => ("dt", *secs, 3),
    };
    let mut out: Vec<KMatch> = Vec::new();
    let mut i: usize = 0;
    while i < count
        invariant
            i <= count,
            count == conv_row_count(*query),
            kind@ == conv_kind(*query),
            secs == conv_secs(*query),
            out.len() == conv_rows(*query, i as nat).len(),
            forall|j: int| 0 <= j < out.len() ==> conv_match_ok(#[trigger] out[j], *query,
                conv_rows(*query, i as nat)[j]),
        decreases count - i,
    {
        let (fmt, title, icon) = conv_row(query, i);
        let ghost prev = conv_rows(*query, i as nat);
        match render(kind, secs, fmt) {
            Some(value) => {
                let mut id = String::from_str("conv:");
                let ghost start = id@;
                id.append(kind);
                id.append(":");
                let n = i64_to_string(secs);
                id.append(n.as_str());
                id.append(":");
                id.append(fmt);
                assert(id@ =~= start + (kind@ + ":"@ + n@ + ":"@ + fmt@));
                let m = new_match(id, String::from_str(title), icon, Relevance::Ranked(i as u32), value);
                let ghost old_out = out@;
                out.push(m);
                assert(conv_rows(*query, (i + 1) as nat) == prev.push(i as int));
                assert forall|j: int| 0 <= j < out.len() implies conv_match_ok(#[trigger] out[j], *query,
                    conv_rows(*query, (i + 1) as nat)[j]) by {
                    if j < old_out.len() {
                        assert(out[j] == old_out[j]);
                    }
                }
            },
            None => {
                assert(conv_rows(*query, (i + 1) as nat) == prev);
            },
        }
        i = i + 1;
    }
    out
}

/// The direction, seconds and format key named by the id suffix
/// `<kind>:<secs>:<fmt>`: split at the first two colons, the seconds read as an `i64`.
pub open spec fn convert_id_parts(suffix: Seq<char>) -> Option<(Seq<char>, i64, Seq<char>)> {
    match split_once_spec(suffix, ':') {
        None => None,
        Some((kind, rest)) => match split_once_spec(rest, ':') {
            None => None,
            Some((n, fmt)) => match parse_i64_spec(n) {
                None => None,
                Some(secs) => Some((kind, secs, fmt)),
            },
        },
    }
}

/// The value of the conversion row named by the id suffix `<kind>:<secs>:<fmt>`;
/// `None` when the suffix names no row with a value.
pub fn value_for_convert_id(suffix: &str) -> (r: Option<String>)
    ensures
        match convert_id_parts(suffix@) {
            None => r is None,
            Some((kind, secs, fmt)) => render_ok(kind, secs, fmt, match r {
                Some(s) => Some(s@),
                None => None,
            }),
        },
{
    let (kind, rest) = match split_once(suffix, ':') {
        Some(p) => p,
        None => return None,
    };
    let (n, fmt) = match split_once(rest, ':') {
        Some(p) => p,
        None => return None,
    };
    let secs = match parse_i64(n) {
        Some(v) => v,
        None => return None,
    };
    render(kind, secs, fmt)
}

/// The id of a conversion match names its row again: split at its first two colons
/// and read, the part after `conv:` gives back the query's direction, its seconds and
/// the row's format key.
pub proof fn lemma_convert_id_roundtrip(q: ConvertQuery, i: int)
    ensures
        convert_id_parts(conv_id_suffix(q, i)) == Some((conv_kind(q), conv_secs(q), conv_row_fmt(q, i))),
{
    reveal_strlit(":");
    reveal_strlit("ts");
    reveal_strlit("dt");
    let kind = conv_kind(q);
    let n = dec_int(conv_secs(q) as int);
    let fmt = conv_row_fmt(q, i);
    assert(!kind.contains(':')) by {
        assert forall|j: int| 0 <= j < kind.len() implies kind[j] != ':' by {}
    }
    lemma_dec_int_chars(conv_secs(q) as int, ':');
    lemma_split_once_at(kind, n + seq![':'] + fmt, ':');
    assert(conv_id_suffix(q, i) =~= kind + seq![':'] + (n + seq![':'] + fmt));
    lemma_split_once_at(n, fmt, ':');
    lemma_parse_dec_int(conv_secs(q));
}

/// Running a conversion match rebuilds its value: whatever `value_for_convert_id` may
/// give for the part of the id after `conv:` is a value; where the row's value does not
/// depend on the machine's time zone it is the match's subtext, and where it does, both
/// are the moment rendered with the row's own pattern (each at the offset that the
/// zone had when it was rendered).
pub proof fn lemma_convert_run_gives_match_value(m: KMatch, q: ConvertQuery, i: int, r: Option<Seq<char>>)
    requires
        conv_match_ok(m, q, i),
        match convert_id_parts(conv_id_suffix(q, i)) {
            None => r is None,
            Some((kind, secs, fmt)) => render_ok(kind, secs, fmt, r),
        },
    ensures
        r is Some,
        render_exact(conv_kind(q), conv_secs(q), conv_row_fmt(q, i)) is Some ==> r == Some(m.subtext@),
        render_local_pattern(conv_kind(q), conv_row_fmt(q, i)) matches Some(p) ==> local_rendering(
            conv_secs(q),
            0,
            p,
            r->0,
        ) && local_rendering(conv_secs(q), 0, p, m.subtext@),
{
    lemma_convert_id_roundtrip(q, i);
}

} // verus!
