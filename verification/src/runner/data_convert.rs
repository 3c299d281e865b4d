//! The data conversion entry: `convert` (or a prefix of at least two letters) and
//! `cv` open the conversion workbench on the clipboard text.

use vstd::prelude::*;
use crate::model::MAX_TEXT_BYTES;
use crate::runner::kmatch::{KMatch, Relevance, new_match, CATEGORY, CATEGORY_RELEVANCE};
use crate::text::{ascii_lower_seq, has_prefix, same_text, str_len, to_ascii_lowercase, trim, trim_spec};

verus! {

broadcast use vstd::string::group_string_axioms;

/// Match id of the conversion workbench entry.
pub const OPEN_MATCH_ID: &'static str = "convert:open";

/// Subtext of the conversion workbench entry.
pub const OPEN_SUBTEXT: &'static str = "从剪贴板打开数据转换；内容只在本机处理";

/// Whether the query, trimmed and lower-cased, is `cv` or a prefix of `convert` of at
/// least two bytes.
pub open spec fn is_convert_query(query: Seq<char>) -> bool {
    let q = ascii_lower_seq(trim_spec(query));
    q == "cv"@ || (str_len(q) >= 2 && q.is_prefix_of("convert"@))
}

/// Whether the query asks for the conversion workbench.
pub fn matches_query(query: &str) -> (r: bool)
    ensures
        r == is_convert_query(query@),
{
    let lowered = to_ascii_lowercase(trim(query));
    let q = lowered.as_str();
    same_text(q, "cv") || (q.len() >= 2 && has_prefix("convert", q))
}

/// Whether the conversion entry shows for `query` with the clipboard text `clipboard`:
/// the clipboard must hold text besides whitespace, within the text limit.
pub open spec fn convert_entry_shows(query: Seq<char>, clipboard: Seq<char>) -> bool {
    &&& is_convert_query(query)
    &&& trim_spec(clipboard).len() > 0
    &&& str_len(clipboard) <= MAX_TEXT_BYTES
}

/// Whether `m` is the conversion workbench entry.
pub open spec fn is_convert_entry(m: KMatch) -> bool {
    &&& m.id@ == OPEN_MATCH_ID@
    &&& m.text@ == "打开数据转换"@
    &&& m.icon@ == "transform-move"@
    &&& m.category_relevance == CATEGORY_RELEVANCE
    &&& m.relevance == Relevance::Full
    &&& m.subtext@ == OPEN_SUBTEXT@
    &&& m.category@ == CATEGORY@
}

/// The conversion workbench entry, where the query asks for it and the clipboard
/// holds usable text.
pub fn match_for_clipboard(query: &str, clipboard: &str) -> (r: Option<KMatch>)
    ensures
        r is Some <==> convert_entry_shows(query@, clipboard@),
        r is Some ==> is_convert_entry(r->0),
{
    if !matches_query(query) || trim(clipboard).is_empty() || clipboard.len() > MAX_TEXT_BYTES {
        return None;
    }
    Some(new_match(String::from_str(OPEN_MATCH_ID), String::from_str("打开数据转换"), "transform-move",
        Relevance::Full, String::from_str(OPEN_SUBTEXT)))
}

} // verus!
