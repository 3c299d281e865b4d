//! Time and date queries: `date`, `time`, `ts`, `unix`, `tms`, `tsm`, `now` and their
//! prefixes. A query picks item suffixes; the matches follow the order of the items.

use vstd::prelude::*;
use crate::runner::clock::{Moment, moment_in_range, moment_millis, millis_of, now_local, now_utc,
    format_local, format_utc, local_rendering, utc_formatted, utc_timestamp_exists, LOCAL_DATETIME_PATTERN,
    LOCAL_TIME_PATTERN, LOCAL_RFC3339_PATTERN};
pub use crate::runner::clock::{ISO8601_PATTERN, UTC_PATTERN};
use crate::runner::kmatch::{KMatch, Relevance, new_match, CATEGORY, CATEGORY_RELEVANCE};
use crate::text::{views, dec_int, i64_to_string, has_prefix, lower_text, same_text, str_len, to_lowercase, trim, trim_spec};

verus! {

broadcast use vstd::string::group_string_axioms;

/// Number of commands that the runner knows.
pub const COMMAND_COUNT: usize = 4;

/// The trigger keywords of command `i`.
pub open spec fn command_keywords(i: int) -> Seq<Seq<char>> {
    if i == 0 {
        seq!["date"@, "time"@]
    } else if i == 1 {
        seq!["ts"@, "unix"@]
    } else if i == 2 {
        seq!["tms"@, "tsm"@]
    } else {
        seq!["now"@]
    }
}

/// The item suffixes that command `i` shows.
pub open spec fn command_suffixes(i: int) -> Seq<Seq<char>> {
    if i == 0 {
        seq!["local"@, "unix"@, "unixms"@, "rfc3339"@, "iso8601"@, "utc"@]
    } else if i == 1 {
        seq!["unix"@]
    } else if i == 2 {
        seq!["unixms"@]
    } else {
        seq!["local"@, "hhmmss"@]
    }
}

/// Whether the query equals a keyword of some command.
pub open spec fn is_exact_hit(q: Seq<char>) -> bool {
    exists|i: int, k: int|
        0 <= i < COMMAND_COUNT && 0 <= k < command_keywords(i).len() && #[trigger] command_keywords(i)[k]
            == q
}

/// Whether keyword `kw` hits the query: equality when some keyword equals the query,
/// else either one a prefix of the other.
pub open spec fn keyword_hits(q: Seq<char>, kw: Seq<char>, exact: bool) -> bool {
    if exact {
        kw == q
    } else {
        kw.is_prefix_of(q) || q.is_prefix_of(kw)
    }
}

/// Whether some keyword of command `i` hits the query.
pub open spec fn command_hits(q: Seq<char>, i: int, exact: bool) -> bool {
    exists|k: int| 0 <= k < command_keywords(i).len() && keyword_hits(q, #[trigger] command_keywords(i)[k], exact)
}

/// `acc` followed by those of `add` that are not in it yet, in order, each once.
pub open spec fn add_new(acc: Seq<Seq<char>>, add: Seq<Seq<char>>) -> Seq<Seq<char>>
    decreases add.len(),
{
    if add.len() == 0 {
        acc
    } else {
        let next = if acc.contains(add[0]) {
            acc
        } else {
            acc.push(add[0])
        };
        add_new(next, add.skip(1))
    }
}

/// The suffixes of the first `n` commands that hit the query, merged in command order.
pub open spec fn matched_upto(q: Seq<char>, exact: bool, n: nat) -> Seq<Seq<char>>
    decreases n,
{
    if n == 0 {
        seq![]
    } else {
        let prev = matched_upto(q, exact, (n - 1) as nat);
        if command_hits(q, n - 1, exact) {
            add_new(prev, command_suffixes(n - 1))
        } else {
            prev
        }
    }
}

/// The item suffixes that the trimmed, lower-cased query `q` shows: none for a query
/// under two bytes; else, where some keyword equals `q`, the suffixes of the commands
/// with such a keyword, and otherwise those of the commands with a keyword that is a
/// prefix of `q` or that `q` is a prefix of.
pub open spec fn time_suffixes_spec(q: Seq<char>) -> Seq<Seq<char>> {
    if str_len(q) < 2 {
        seq![]
    } else {
        matched_upto(q, is_exact_hit(q), COMMAND_COUNT as nat)
    }
}

fn keywords_of(i: usize) -> (v: Vec<&'static str>)
    requires
        i < COMMAND_COUNT,
    ensures
        views(v@) == command_keywords(i as int),
{
    let v: Vec<&'static str> = if i == 0 {
        vec!["date", "time"]
    } else if i == 1 {
        vec!["ts", "unix"]
    } else if i == 2 {
        vec!["tms", "tsm"]
    } else {
        vec!["now"]
    };
    assert(views(v@) =~= command_keywords(i as int));
    v
}

fn suffixes_of(i: usize) -> (v: Vec<&'static str>)
    requires
        i < COMMAND_COUNT,
    ensures
        views(v@) == command_suffixes(i as int),
{
    let v: Vec<&'static str> = if i == 0 {
        vec!["local", "unix", "unixms", "rfc3339", "iso8601", "utc"]
    } else if i == 1 {
        vec!["unix"]
    } else if i == 2 {
        vec!["unixms"]
    } else {
        vec!["local", "hhmmss"]
    };
    assert(views(v@) =~= command_suffixes(i as int));
    v
}

/// Whether some keyword of command `i` hits `q`.
fn hits(q: &str, i: usize, exact: bool) -> (r: bool)
    requires
        i < COMMAND_COUNT,
    ensures
        r == command_hits(q@, i as int, exact),
{
    let kws = keywords_of(i);
    let mut k: usize = 0;
    while k < kws.len()
        invariant
            k <= kws.len(),
            views(kws@) == command_keywords(i as int),
            forall|j: int| 0 <= j < k ==> !keyword_hits(q@, #[trigger] command_keywords(i as int)[j], exact),
        decreases kws.len() - k,
    {
        let kw = kws[k];
        assert(kw@ == command_keywords(i as int)[k as int]);
        let h = if exact {
            same_text(kw, q)
        } else {
            has_prefix(q, kw) || has_prefix(kw, q)
        };
        if h {
            return true;
        }
        k = k + 1;
    }
    false
}

/// Whether `q` equals a keyword of some command.
fn exact_hit(q: &str) -> (r: bool)
    ensures
        r == is_exact_hit(q@),
{
    let mut i: usize = 0;
    while i < COMMAND_COUNT
        invariant
            i <= COMMAND_COUNT,
            forall|a: int, k: int|
                0 <= a < i && 0 <= k < command_keywords(a).len() ==> #[trigger] command_keywords(a)[k] != q@,
        decreases COMMAND_COUNT - i,
    {
        if hits(q, i, true) {
            return true;
        }
        i = i + 1;
    }
    false
}

/// Whether `v` holds a string with the characters of `s`.
fn contains_text(v: &[&str], s: &str) -> (r: bool)
    ensures
        r == views(v@).contains(s@),
{
    let mut j: usize = 0;
    while j < v.len()
        invariant
            j <= v.len(),
            forall|a: int| 0 <= a < j ==> v@[a]@ != s@,
        decreases v.len() - j,
    {
        if same_text(v[j], s) {
            assert(views(v@)[j as int] == s@);
            return true;
        }
        j = j + 1;
    }
    assert forall|a: int| 0 <= a < views(v@).len() implies views(v@)[a] != s@ by {
        assert(views(v@)[a] == v@[a]@);
    }
    false
}

/// Appends to `matched` each suffix of `add` that it does not hold yet.
fn add_suffixes(matched: &mut Vec<&'static str>, add: &Vec<&'static str>)
    ensures
        views(final(matched)@) == add_new(views(old(matched)@), views(add@)),
{
    let ghost target = add_new(views(matched@), views(add@));
    assert(views(add@).skip(0) =~= views(add@));
    let mut j: usize = 0;
    while j < add.len()
        invariant
            j <= add.len(),
            add_new(views(matched@), views(add@).skip(j as int)) == target,
        decreases add.len() - j,
    {
        let s = add[j];
        let ghost before = views(matched@);
        let ghost rest = views(add@).skip(j as int);
        assert(rest[0] == s@);
        assert(rest.skip(1) =~= views(add@).skip(j + 1));
        if !contains_text(matched.as_slice(), s) {
            matched.push(s);
            assert(views(matched@) =~= before.push(s@));
        }
        j = j + 1;
    }
    assert(views(add@).skip(add.len() as int) =~= seq![]);
}

/// The item suffixes that the trimmed, lower-cased query `q` shows, in the order the
/// commands give them, each once.
pub fn suffixes_for_lowered(q: &str) -> (r: Vec<&'static str>)
    ensures
        views(r@) == time_suffixes_spec(q@),
{
    let mut matched: Vec<&'static str> = Vec::new();
    if q.len() < 2 {
        assert(views(matched@) =~= seq![]);
        return matched;
    }
    let exact = exact_hit(q);
    assert(views(matched@) =~= matched_upto(q@, exact, 0));
    let mut i: usize = 0;
    while i < COMMAND_COUNT
        invariant
            i <= COMMAND_COUNT,
            exact == is_exact_hit(q@),
            views(matched@) == matched_upto(q@, exact, i as nat),
        decreases COMMAND_COUNT - i,
    {
        if hits(q, i, exact) {
            let add = suffixes_of(i);
            add_suffixes(&mut matched, &add);
        }
        i = i + 1;
    }
    matched
}

/// The item suffixes that a query shows: the query is trimmed and lower-cased first.
pub fn suffixes_for_query(query: &str) -> (r: Vec<&'static str>)
    ensures
        views(r@) == time_suffixes_spec(lower_text(trim_spec(query@))),
{
    let lowered = to_lowercase(trim(query));
    suffixes_for_lowered(lowered.as_str())
}

/// Number of result rows that the runner knows.
pub const ITEM_COUNT: usize = 7;

/// The id suffix of result row `i`.
pub open spec fn item_suffix(i: int) -> Seq<char> {
    if i == 0 {
        "local"@
    } else if i == 1 {
        "hhmmss"@
    } else if i == 2 {
        "unix"@
    } else if i == 3 {
        "unixms"@
    } else if i == 4 {
        "rfc3339"@
    } else if i == 5 {
        "iso8601"@
    } else {
        "utc"@
    }
}

/// The title of result row `i`.
pub open spec fn item_title(i: int) -> Seq<char> {
    if i == 0 {
        "当前时间"@
    } else if i == 1 {
        "当前时间 (仅时分秒)"@
    } else if i == 2 {
        "Unix 时间戳"@
    } else if i == 3 {
        "Unix 时间戳 (ms)"@
    } else if i == 4 {
        "RFC3339"@
    } else if i == 5 {
        "ISO8601"@
    } else {
        "UTC 时间"@
    }
}

/// The icon of result row `i`.
pub open spec fn item_icon(i: int) -> Seq<char> {
    if i == 0 || i == 1 || i == 6 {
        "clock"@
    } else if i == 2 || i == 3 {
        "preferences-system-time"@
    } else {
        "text-x-generic"@
    }
}

fn item_of(i: usize) -> (r: (&'static str, &'static str, &'static str))
    requires
        i < ITEM_COUNT,
    ensures
        r.0@ == item_suffix(i as int),
        r.1@ == item_title(i as int),
        r.2@ == item_icon(i as int),
{
    if i == 0 {
        ("local", "当前时间", "clock")
    } else if i == 1 {
        ("hhmmss", "当前时间 (仅时分秒)", "clock")
    } else if i == 2 {
        ("unix", "Unix 时间戳", "preferences-system-time")
    } else if i == 3 {
        ("unixms", "Unix 时间戳 (ms)", "preferences-system-time")
    } else if i == 4 {
        ("rfc3339", "RFC3339", "text-x-generic")
    } else if i == 5 {
        ("iso8601", "ISO8601", "text-x-generic")
    } else {
        ("utc", "UTC 时间", "clock")
    }
}

/// The UTC rendering of a moment with `pattern`, or the empty text where chrono has
/// no date-time for it.
pub open spec fn utc_text_or_empty(m: Moment, pattern: Seq<char>) -> Seq<char> {
    if utc_timestamp_exists(m.secs, m.nanos) {
        utc_formatted(m.secs, m.nanos, pattern)
    } else {
        seq![]
    }
}

/// The rendering of a moment with `pattern` in the machine's time zone, at whichever
/// offset the zone has then, or the empty text where chrono has no date-time for it.
pub open spec fn local_text_or_empty(m: Moment, pattern: Seq<char>, v: Seq<char>) -> bool {
    if utc_timestamp_exists(m.secs, m.nanos) {
        local_rendering(m.secs, m.nanos, pattern, v)
    } else {
        v == Seq::<char>::empty()
    }
}

/// What the row with id suffix `suffix` copies, for the local moment `now` and the
/// UTC moment `utc`: the local date and time, time of day and RFC 3339 text of `now`
/// (at the offset that the machine's time zone has then); the Unix seconds and
/// milliseconds of `now`; the ISO 8601 and UTC renderings of `utc`; nothing for an
/// unknown suffix.
pub open spec fn time_value_ok(suffix: Seq<char>, now: Moment, utc: Moment, v: Seq<char>) -> bool {
    if suffix == "local"@ {
        local_text_or_empty(now, LOCAL_DATETIME_PATTERN@, v)
    } else if suffix == "hhmmss"@ {
        local_text_or_empty(now, LOCAL_TIME_PATTERN@, v)
    } else if suffix == "rfc3339"@ {
        local_text_or_empty(now, LOCAL_RFC3339_PATTERN@, v)
    } else if suffix == "unix"@ {
        v == dec_int(now.secs as int)
    } else if suffix == "unixms"@ {
        v == dec_int(moment_millis(now))
    } else if suffix == "iso8601"@ {
        v == utc_text_or_empty(utc, ISO8601_PATTERN@)
    } else if suffix == "utc"@ {
        v == utc_text_or_empty(utc, UTC_PATTERN@)
    } else {
        v == Seq::<char>::empty()
    }
}

fn formatted_or_empty(t: Option<String>) -> (s: String)
    ensures
        s@ == match t {
            Some(x) => x@,
            None => Seq::<char>::empty(),
        },
{
    match t {
        Some(x) => x,
        None => String::new(),
    }
}

/// The text that the row with id suffix `suffix` copies at the local moment `now`
/// and the UTC moment `utc`.
pub fn value_of(suffix: &str, now: &Moment, utc: &Moment) -> (r: String)
    requires
        moment_in_range(*now),
    ensures
        time_value_ok(suffix@, *now, *utc, r@),
{
    if same_text(suffix, "local") {
        formatted_or_empty(format_local(now.secs, now.nanos, LOCAL_DATETIME_PATTERN))
    } else if same_text(suffix, "hhmmss") {
        formatted_or_empty(format_local(now.secs, now.nanos, LOCAL_TIME_PATTERN))
    } else if same_text(suffix, "rfc3339") {
        formatted_or_empty(format_local(now.secs, now.nanos, LOCAL_RFC3339_PATTERN))
    } else if same_text(suffix, "unix") {
        i64_to_string(now.secs)
    } else if same_text(suffix, "unixms") {
        i64_to_string(millis_of(now))
    } else if same_text(suffix, "iso8601") {
        formatted_or_empty(format_utc(utc.secs, utc.nanos, ISO8601_PATTERN))
    } else if same_text(suffix, "utc") {
        formatted_or_empty(format_utc(utc.secs, utc.nanos, UTC_PATTERN))
    } else {
        String::new()
    }
}

/// Indices of the first `n` rows whose suffix is among `sfx`, in row order.
pub open spec fn selected_items(sfx: Seq<Seq<char>>, n: nat) -> Seq<int>
    decreases n,
{
    if n == 0 {
        seq![]
    } else {
        let prev = selected_items(sfx, (n - 1) as nat);
        if sfx.contains(item_suffix(n - 1)) {
            prev.push(n - 1)
        } else {
            prev
        }
    }
}

/// Whether `m` is the match of row `item` at rank `rank`.
pub open spec fn time_match_ok(m: KMatch, item: int, rank: int, now: Moment, utc: Moment) -> bool {
    &&& m.id@ == "date:"@ + item_suffix(item)
    &&& m.text@ == item_title(item)
    &&& m.icon@ == item_icon(item)
    &&& m.category_relevance == CATEGORY_RELEVANCE
    &&& m.relevance == Relevance::Ranked(rank as u32)
    &&& m.category@ == CATEGORY@
    &&& time_value_ok(item_suffix(item), now, utc, m.subtext@)
}

/// Whether `r` holds one match per row whose suffix is among `sfx`, in row order,
/// ranked from 0, for the moments `now` and `utc`.
pub open spec fn time_matches_ok(r: Seq<KMatch>, sfx: Seq<Seq<char>>, now: Moment, utc: Moment) -> bool {
    let sel = selected_items(sfx, ITEM_COUNT as nat);
    &&& r.len() == sel.len()
    &&& forall|j: int| 0 <= j < r.len() ==> time_match_ok(#[trigger] r[j], sel[j], j, now, utc)
}

/// The matches for the item suffixes `suffixes` at the given moments: one per row
/// whose suffix is listed, in row order, ranked from 0.
pub fn build_matches_at(suffixes: &[&str], now: &Moment, utc: &Moment) -> (r: Vec<KMatch>)
    requires
        moment_in_range(*now),
    ensures
        time_matches_ok(r@, views(suffixes@), *now, *utc),
{
    let ghost sfx = views(suffixes@);
    let mut out: Vec<KMatch> = Vec::new();
    let mut i: usize = 0;
    while i < ITEM_COUNT
        invariant
            i <= ITEM_COUNT,
            sfx == views(suffixes@),
            moment_in_range(*now),
            out.len() == selected_items(sfx, i as nat).len(),
            out.len() <= i,
            forall|j: int| 0 <= j < out.len() ==> time_match_ok(#[trigger] out[j],
                selected_items(sfx, i as nat)[j], j, *now, *utc),
        decreases ITEM_COUNT - i,
    {
        let (suffix, title, icon) = item_of(i);
        let ghost prev = selected_items(sfx, i as nat);
        if contains_text(suffixes, suffix) {
            let mut id = String::from_str("date:");
            id.append(suffix);
            let value = value_of(suffix, now, utc);
            let rank: u32 = out.len() as u32;
            let m = new_match(id, String::from_str(title), icon, Relevance::Ranked(rank), value);
            let ghost old_out = out@;
            out.push(m);
            assert(selected_items(sfx, (i + 1) as nat) == prev.push(i as int));
            assert forall|j: int| 0 <= j < out.len() implies time_match_ok(#[trigger] out[j],
                selected_items(sfx, (i + 1) as nat)[j], j, *now, *utc) by {
                if j < old_out.len() {
                    assert(out[j] == old_out[j]);
                }
            }
        }
        i = i + 1;
    }
    out
}

/// The matches for the item suffixes `suffixes` at the current moment: those of
/// `build_matches_at` for some moments that the clock gave.
pub fn build_matches(suffixes: &[&str]) -> (r: Vec<KMatch>)
    ensures
        exists|now: Moment, utc: Moment|
            moment_in_range(now) && #[trigger] time_matches_ok(r@, views(suffixes@), now, utc),
{
    let now = now_local();
    let utc = now_utc();
    build_matches_at(suffixes, &now, &utc)
}

} // verus!
