//! How the runner answers KRunner's `Match` and `Run` calls. Typed-in JSON comes first,
//! then the JSON and conversion entries on the clipboard, the media tools, timestamp
//! conversion, UUIDs, random strings and last the time rows. Reading the clipboard is
//! left to the caller: a `Match` call is a short exchange of steps and events.

use vstd::prelude::*;
use crate::runner::clock::{Moment, moment_in_range, now_local, now_utc};
use crate::runner::convert::{ConvertQuery, build_convert_matches, conv_matches_ok, convert_id_parts,
    convert_query_spec, needs_time_zone, parse_convert_query, render_ok, value_for_convert_id};
use crate::runner::data_convert;
use crate::runner::json::{self, InlineContextCache, JsonLookup, after_insert, clipboard_entry_shows,
    inline_id, is_json_match, is_json_query, is_structured_json, CLIPBOARD_SUBTEXT, INLINE_SUBTEXT,
    OPEN_MATCH_ID};
use crate::runner::kmatch::KMatch;
use crate::runner::media::{self, MediaTool, is_media_entry, media_tool_for_query, media_tool_of_match_id};
use crate::runner::rand::{build_rand_matches, is_rand_text, parse_rand_query, rand_id_parts, rand_matches_ok,
    rand_query_of, value_for_rand_id};
use crate::runner::time::{build_matches, suffixes_for_query, time_matches_ok, time_suffixes_spec,
    time_value_ok, value_of};
use crate::runner::uuid::{build_uuid_matches, is_uuid_text, parse_uuid_query, uuid_id_parts,
    uuid_matches_ok, uuid_query_of, value_for_uuid_id};
use crate::text::{chars_of, has_prefix, lower_text, trim_spec};

verus! {

broadcast use vstd::string::group_string_axioms;

/// The matches after the conversion step: a UUID query, else a random-string query,
/// else the time rows of the query at some moments the clock gave.
pub open spec fn after_conversion_ok(query: Seq<char>, r: Seq<KMatch>) -> bool {
    match uuid_query_of(query) {
        Some(u) => uuid_matches_ok(r, u),
        None => match rand_query_of(query) {
            Some(q) => rand_matches_ok(r, q),
            None => exists|now: Moment, utc: Moment|
                moment_in_range(now) && #[trigger] time_matches_ok(
                    r,
                    time_suffixes_spec(lower_text(trim_spec(query))),
                    now,
                    utc,
                ),
        },
    }
}

/// The matches that the tool keywords and the value queries give: a media tool entry,
/// else the conversion rows, else what follows conversion. A wall-clock date string
/// gives its conversion rows or, where the machine's time zone finds it ambiguous or
/// skipped, what follows conversion.
pub open spec fn later_matches_ok(query: Seq<char>, r: Seq<KMatch>) -> bool {
    match media_tool_for_query(query) {
        Some(t) => r.len() == 1 && is_media_entry(r[0], t),
        None => {
            let s = trim_spec(query);
            if needs_time_zone(s) {
                (exists|secs: i64| #[trigger] conv_matches_ok(r, ConvertQuery::Datetime { secs }))
                    || after_conversion_ok(query, r)
            } else {
                match convert_query_spec(s) {
                    Some(cq) => conv_matches_ok(r, cq),
                    None => after_conversion_ok(query, r),
                }
            }
        },
    }
}

fn single(m: KMatch) -> (r: Vec<KMatch>)
    ensures
        r@ == seq![m],
{
    let mut r: Vec<KMatch> = Vec::new();
    r.push(m);
    r
}

/// The matches of the tool keywords and value queries for `query`.
pub fn later_matches(query: &str) -> (r: Vec<KMatch>)
    ensures
        later_matches_ok(query@, r@),
{
    if let Some(m) = media::match_for_query(query) {
        return single(m);
    }
    if let Some(cq) = parse_convert_query(query) {
        let r = build_convert_matches(&cq);
        proof {
            if needs_time_zone(trim_spec(query@)) {
                assert(conv_matches_ok(r@, cq));
            }
        }
        return r;
    }
    if let Some(u) = parse_uuid_query(query) {
        return build_uuid_matches(&u);
    }
    if let Some(q) = parse_rand_query(query) {
        return build_rand_matches(&q);
    }
    let suffixes = suffixes_for_query(query);
    build_matches(suffixes.as_slice())
}

/// What a `Match` call needs next.
#[derive(Debug)]
pub enum MatchStep {
    /// Answer with these matches.
    Reply(Vec<KMatch>),
    /// Read the clipboard and hand it back as `MatchEvent::JsonClipboard`.
    ReadClipboardForJson,
    /// Read the clipboard and hand it back as `MatchEvent::ConvertClipboard`.
    ReadClipboardForConvert,
}

/// What happened since the last step of a `Match` call.
#[derive(Debug)]
pub enum MatchEvent {
    /// The call begins.
    Start,
    /// The clipboard text for the JSON entry; `None` where it could not be read.
    JsonClipboard(Option<String>),
    /// The clipboard text for the conversion entry; `None` where it could not be read.
    ConvertClipboard(Option<String>),
}

/// The step after the JSON entries had nothing: the conversion entry reads the
/// clipboard when the query asks for it; else the later matches.
pub open spec fn after_json_ok(query: Seq<char>, step: MatchStep) -> bool {
    if data_convert::is_convert_query(query) {
        step is ReadClipboardForConvert
    } else {
        step matches MatchStep::Reply(r) && later_matches_ok(query, r@)
    }
}

fn after_json(query: &str) -> (step: MatchStep)
    ensures
        after_json_ok(query@, step),
{
    if data_convert::matches_query(query) {
        MatchStep::ReadClipboardForConvert
    } else {
        MatchStep::Reply(later_matches(query))
    }
}

/// The next step of a `Match` call for `query`, given what happened: typed-in JSON is
/// answered at once (and kept in the cache); the JSON keyword asks for the clipboard,
/// whose valid JSON is then answered; else the conversion keyword asks for the
/// clipboard, whose usable text is then answered; else the later matches.
pub fn match_step(query: &str, cache: &mut InlineContextCache, event: MatchEvent) -> (step: MatchStep)
    requires
        old(cache).wf(),
    ensures
        final(cache).wf(),
        match event {
            MatchEvent::Start => if is_structured_json(query@) {
                &&& step matches MatchStep::Reply(r) && r@.len() == 1 && is_json_match(
                    r@[0],
                    inline_id(old(cache).next() as nat),
                    INLINE_SUBTEXT@,
                )
                &&& final(cache).view_entries() == after_insert(
                    old(cache).view_entries(),
                    inline_id(old(cache).next() as nat),
                    query@,
                )
            } else {
                &&& final(cache).view_entries() == old(cache).view_entries()
                &&& if is_json_query(query@) {
                    step is ReadClipboardForJson
                } else {
                    after_json_ok(query@, step)
                }
            },
            MatchEvent::JsonClipboard(c) => {
                &&& final(cache).view_entries() == old(cache).view_entries()
                &&& if c matches Some(t) && clipboard_entry_shows(query@, t@) {
                    step matches MatchStep::Reply(r) && r@.len() == 1 && is_json_match(
                        r@[0],
                        OPEN_MATCH_ID@,
                        CLIPBOARD_SUBTEXT@,
                    )
                } else {
                    after_json_ok(query@, step)
                }
            },
            MatchEvent::ConvertClipboard(c) => {
                &&& final(cache).view_entries() == old(cache).view_entries()
                &&& if c matches Some(t) && data_convert::convert_entry_shows(query@, t@) {
                    step matches MatchStep::Reply(r) && r@.len() == 1 && data_convert::is_convert_entry(r@[0])
                } else {
                    step matches MatchStep::Reply(r) && later_matches_ok(query@, r@)
                }
            },
        },
{
    match event {
        MatchEvent::Start => match json::match_for_query(query, cache) {
            JsonLookup::Found(m) => MatchStep::Reply(single(m)),
            JsonLookup::CheckClipboard => MatchStep::ReadClipboardForJson,
            JsonLookup::NoMatch => after_json(query),
        },
        MatchEvent::JsonClipboard(c) => {
            if let Some(text) = c {
                if let Some(m) = json::match_for_clipboard(query, text.as_str()) {
                    return MatchStep::Reply(single(m));
                }
            }
            after_json(query)
        },
        MatchEvent::ConvertClipboard(c) => {
            if let Some(text) = c {
                if let Some(m) = data_convert::match_for_clipboard(query, text.as_str()) {
                    return MatchStep::Reply(single(m));
                }
            }
            MatchStep::Reply(later_matches(query))
        },
    }
}

/// The text held, or the empty text.
pub open spec fn or_empty(r: Option<Seq<char>>) -> Seq<char> {
    match r {
        Some(v) => v,
        None => Seq::<char>::empty(),
    }
}

/// Whether `r` is what a `Run` of the match id `id` copies: the conversion value, the
/// time value at some moments the clock gave (nothing where it is empty), a fresh
/// random string or UUID of the kind the id names; nothing for any other id.
pub open spec fn value_for_id_ok(id: Seq<char>, r: Option<Seq<char>>) -> bool {
    let suffix = id.skip(5);
    if "conv:"@.is_prefix_of(id) {
        match convert_id_parts(suffix) {
            None => r is None,
            Some((kind, secs, fmt)) => render_ok(kind, secs, fmt, r),
        }
    } else if "date:"@.is_prefix_of(id) {
        exists|now: Moment, utc: Moment|
            moment_in_range(now) && #[trigger] time_value_ok(suffix, now, utc, or_empty(r)) && (r matches Some(
                v,
            ) ==> v.len() > 0)
    } else if "rand:"@.is_prefix_of(id) {
        match rand_id_parts(suffix) {
            None => r is None,
            Some((m, len)) => r matches Some(v) && is_rand_text(v, m, len),
        }
    } else if "uuid:"@.is_prefix_of(id) {
        match uuid_id_parts(suffix) {
            None => r is None,
            Some((v, f)) => r matches Some(t) && is_uuid_text(t, v, f),
        }
    } else {
        r is None
    }
}

/// The text after the first five characters of `id`.
fn after_five(id: &str) -> (r: &str)
    requires
        id@.len() >= 5,
    ensures
        r@ == id@.skip(5),
{
    let n = chars_of(id).len();
    id.substring_char(5, n)
}

/// The value that a `Run` of the match id `id` copies; `None` for an id that names no
/// value.
pub fn value_for_id(id: &str) -> (r: Option<String>)
    ensures
        value_for_id_ok(id@, match r {
            Some(s) => Some(s@),
            None => None,
        }),
{
    proof {
        reveal_strlit("conv:");
        reveal_strlit("date:");
        reveal_strlit("rand:");
        reveal_strlit("uuid:");
        assert("conv:"@[0] != "date:"@[0] && "conv:"@[0] != "rand:"@[0] && "conv:"@[0] != "uuid:"@[0]);
        assert("date:"@[0] != "rand:"@[0] && "date:"@[0] != "uuid:"@[0] && "rand:"@[0] != "uuid:"@[0]);
    }
    if has_prefix(id, "conv:") {
        return value_for_convert_id(after_five(id));
    }
    if has_prefix(id, "date:") {
        let now = now_local();
        let utc = now_utc();
        let value = value_of(after_five(id), &now, &utc);
        if value.as_str().is_empty() {
            assert(value@ =~= or_empty(None));
            assert(time_value_ok(id@.skip(5), now, utc, or_empty(None)));
            return None;
        }
        assert(time_value_ok(id@.skip(5), now, utc, or_empty(Some(value@))));
        return Some(value);
    }
    if has_prefix(id, "rand:") {
        return value_for_rand_id(after_five(id));
    }
    if has_prefix(id, "uuid:") {
        return value_for_uuid_id(after_five(id));
    }
    None
}

/// What a `Run` of a match does.
#[derive(Debug, Clone, Copy, PartialEq, Eq, Structural)]
pub enum RunTarget {
    /// Open the JSON workbench (see `json::workbench_source`).
    JsonWorkbench,
    /// Open the conversion workbench on the clipboard text.
    ConvertWorkbench,
    /// Open the page of this media tool.
    Media(MediaTool),
    /// Copy the value that the id names (see `copy_value_for_id`).
    CopyValue,
}

/// What a `Run` of the match id `match_id` does: the JSON entries first, then the
/// conversion workbench, the media tools, and else a copied value.
pub fn run_target(match_id: &str) -> (r: RunTarget)
    ensures
        r == (if json::is_json_match_id(match_id@) {
            RunTarget::JsonWorkbench
        } else if match_id@ == data_convert::OPEN_MATCH_ID@ {
            RunTarget::ConvertWorkbench
        } else if media_tool_of_match_id(match_id@) is Some {
            RunTarget::Media(media_tool_of_match_id(match_id@)->0)
        } else {
            RunTarget::CopyValue
        }),
{
    if json::handles_match_id(match_id) {
        return RunTarget::JsonWorkbench;
    }
    if crate::text::same_text(match_id, data_convert::OPEN_MATCH_ID) {
        return RunTarget::ConvertWorkbench;
    }
    match media::tool_of_match_id(match_id) {
        Some(t) => RunTarget::Media(t),
        None => RunTarget::CopyValue,
    }
}

/// The value that a `Run` of `match_id` copies, or `unknown match id: <id>`.
pub fn copy_value_for_id(match_id: &str) -> (r: Result<String, String>)
    ensures
        match r {
            Ok(v) => value_for_id_ok(match_id@, Some(v@)),
            Err(e) => value_for_id_ok(match_id@, None) && e@ == "unknown match id: "@ + match_id@,
        },
{
    match value_for_id(match_id) {
        Some(v) => Ok(v),
        None => {
            let mut e = String::from_str("unknown match id: ");
            e.append(match_id);
            Err(e)
        },
    }
}

} // verus!
