//! JSON queries: a JSON object or array typed into KRunner opens the JSON workbench
//! directly, kept meanwhile in a small in-memory cache; `j` / `json` opens the
//! clipboard when it holds valid JSON.

use vstd::prelude::*;
use crate::model::{Context, JsonKind, json_document_kind, within_text_limit};
use crate::runner::kmatch::{KMatch, Relevance, new_match, CATEGORY, CATEGORY_RELEVANCE};
use crate::text::{ascii_lower_seq, dec, has_prefix, same_text, to_ascii_lowercase, trim,
    trim_spec, u64_to_string};

verus! {

broadcast use vstd::string::group_string_axioms;

/// Match id of the clipboard entry.
pub const OPEN_MATCH_ID: &'static str = "json:open";

/// Prefix of the match ids of JSON typed into KRunner.
pub const INLINE_MATCH_ID_PREFIX: &'static str = "json:inline:";

/// The keyword that the clipboard entry answers to, and its prefixes.
pub const QUERY_KEYWORD: &'static str = "json";

/// Most typed-in JSON texts that the cache holds at once.
pub const MAX_INLINE_CONTEXTS: usize = 8;

/// The match id of the typed-in JSON text with number `n`.
pub open spec fn inline_id(n: nat) -> Seq<char> {
    INLINE_MATCH_ID_PREFIX@ + dec(n)
}

/// One cached entry, as (match id, JSON text).
pub type CacheEntry = (Seq<char>, Seq<char>);

/// The entries after adding one under `id`: the oldest leaves when there are more
/// than `MAX_INLINE_CONTEXTS`.
pub open spec fn after_insert(v: Seq<CacheEntry>, id: Seq<char>, payload: Seq<char>) -> Seq<CacheEntry> {
    let pushed = v.push((id, payload));
    if pushed.len() > MAX_INLINE_CONTEXTS {
        pushed.drop_first()
    } else {
        pushed
    }
}

/// Index of the first entry with match id `id`, or -1.
pub open spec fn position(v: Seq<CacheEntry>, id: Seq<char>) -> int
    decreases v.len(),
{
    if v.len() == 0 {
        -1
    } else if v[0].0 == id {
        0
    } else if position(v.drop_first(), id) < 0 {
        -1
    } else {
        position(v.drop_first(), id) + 1
    }
}

proof fn lemma_position(v: Seq<CacheEntry>, id: Seq<char>, i: int)
    requires
        0 <= i <= v.len(),
        forall|j: int| 0 <= j < i ==> (#[trigger] v[j]).0 != id,
        i < v.len() ==> v[i].0 == id,
    ensures
        position(v, id) == (if i == v.len() {
            -1
        } else {
            i
        }),
    decreases v.len(),
{
    if v.len() > 0 && v[0].0 != id {
        let t = v.drop_first();
        assert forall|j: int| 0 <= j < i - 1 implies (#[trigger] t[j]).0 != id by {
            assert(t[j] == v[j + 1]);
        }
        if i < v.len() {
            assert(t[i - 1] == v[i]);
        }
        lemma_position(t, id, i - 1);
    }
}

/// Typed-in JSON texts kept between KRunner's `Match` and `Run` calls, which carry only
/// the match id. Never more than `MAX_INLINE_CONTEXTS`; the text never enters the id.
#[derive(Debug)]
pub struct InlineContextCache {
    next_id: u64,
    entries: std::collections::VecDeque<(String, String)>,
}

impl InlineContextCache {
    /// The entries, oldest first, as (match id, JSON text).
    pub closed spec fn view_entries(self) -> Seq<CacheEntry> {
        self.entries@.map_values(|e: (String, String)| (e.0@, e.1@))
    }

    /// The number that the next entry's id carries.
    pub closed spec fn next(self) -> u64 {
        self.next_id
    }

    /// The cache's invariant: at most `MAX_INLINE_CONTEXTS` entries.
    pub closed spec fn wf(self) -> bool {
        self.entries@.len() <= MAX_INLINE_CONTEXTS
    }

    /// An empty cache whose first id carries 0.
    pub fn new() -> (c: InlineContextCache)
        ensures
            c.wf(),
            c.view_entries() == Seq::<CacheEntry>::empty(),
            c.next() == 0,
    {
        let c = InlineContextCache { next_id: 0, entries: std::collections::VecDeque::new() };
        assert(c.view_entries() =~= Seq::<CacheEntry>::empty());
        c
    }

    /// Keeps `payload` under a fresh match id `json:inline:<n>`, which it returns;
    /// the oldest entry leaves when the cache would hold more than
    /// `MAX_INLINE_CONTEXTS`.
    pub fn insert(&mut self, payload: String) -> (id: String)
        requires
            old(self).wf(),
        ensures
            final(self).wf(),
            id@ == inline_id(old(self).next() as nat),
            final(self).next() == old(self).next().wrapping_add(1),
            final(self).view_entries() == after_insert(old(self).view_entries(), id@, payload@),
    {
        let mut id = String::from_str(INLINE_MATCH_ID_PREFIX);
        let n = u64_to_string(self.next_id);
        id.append(n.as_str());
        let ghost old_entries = self.entries@;
        self.next_id = self.next_id.wrapping_add(1);
        self.entries.push_back((id.clone(), payload));
        if self.entries.len() > MAX_INLINE_CONTEXTS {
            self.entries.pop_front();
        }
        proof {
            let pushed = old_entries.push((id, payload));
            let vpushed = pushed.map_values(|e: (String, String)| (e.0@, e.1@));
            assert(vpushed =~= old(self).view_entries().push((id@, payload@)));
            if pushed.len() > MAX_INLINE_CONTEXTS {
                assert(self.view_entries() =~= vpushed.drop_first());
            } else {
                assert(self.view_entries() =~= vpushed);
            }
        }
        id
    }

    /// Takes out the JSON text kept under `match_id`; `None` when no entry has that id.
    pub fn take(&mut self, match_id: &str) -> (r: Option<String>)
        requires
            old(self).wf(),
        ensures
            final(self).wf(),
            final(self).next() == old(self).next(),
            ({
                let p = position(old(self).view_entries(), match_id@);
                if p < 0 {
                    r is None && final(self).view_entries() == old(self).view_entries()
                } else {
                    r matches Some(t) && t@ == old(self).view_entries()[p].1
                        && final(self).view_entries() == old(self).view_entries().remove(p)
                }
            }),
    {
        let ghost v = self.view_entries();
        let mut i: usize = 0;
        while i < self.entries.len()
            invariant
                i <= self.entries@.len(),
                v == self.view_entries(),
                v == old(self).view_entries(),
                self.wf(),
                self.next() == old(self).next(),
                forall|j: int| 0 <= j < i ==> (#[trigger] v[j]).0 != match_id@,
            decreases self.entries@.len() - i,
        {
            assert(v[i as int].0 == self.entries@[i as int].0@);
            if same_text(self.entries[i].0.as_str(), match_id) {
                proof {
                    lemma_position(v, match_id@, i as int);
                }
                let removed = self.entries.remove(i);
                proof {
                    assert(self.view_entries() =~= v.remove(i as int));
                }
                return match removed {
                    Some(e) => Some(e.1),
                    None => None,
                };
            }
            i = i + 1;
        }
        proof {
            lemma_position(v, match_id@, i as int);
        }
        None
    }

    /// Empties the cache; the id numbering goes on.
    pub fn clear(&mut self)
        requires
            old(self).wf(),
        ensures
            final(self).wf(),
            final(self).next() == old(self).next(),
            final(self).view_entries() == Seq::<CacheEntry>::empty(),
    {
        self.entries.clear();
        assert(self.view_entries() =~= Seq::<CacheEntry>::empty());
    }
}

/// Whether no two entries share a match id.
pub open spec fn distinct_ids(v: Seq<CacheEntry>) -> bool {
    forall|i: int, j: int| 0 <= i < j < v.len() ==> v[i].0 != v[j].0
}

/// The cache never holds more than `MAX_INLINE_CONTEXTS` entries.
pub proof fn lemma_cache_is_bounded(c: &InlineContextCache)
    requires
        c.wf(),
    ensures
        c.view_entries().len() <= MAX_INLINE_CONTEXTS,
{
    assert(c.view_entries().len() == c.entries@.len());
}

/// What was just kept can be taken: after adding an entry under an id that no entry
/// has yet, taking that id finds the new entry, with its text.
pub proof fn lemma_take_finds_new_entry(v: Seq<CacheEntry>, id: Seq<char>, payload: Seq<char>)
    requires
        v.len() <= MAX_INLINE_CONTEXTS,
        forall|k: int| 0 <= k < v.len() ==> (#[trigger] v[k]).0 != id,
    ensures
        ({
            let w = after_insert(v, id, payload);
            &&& position(w, id) == w.len() - 1
            &&& w[w.len() - 1] == (id, payload)
        }),
{
    let w = after_insert(v, id, payload);
    let pushed = v.push((id, payload));
    assert forall|j: int| 0 <= j < w.len() - 1 implies (#[trigger] w[j]).0 != id by {
        if pushed.len() > MAX_INLINE_CONTEXTS {
            assert(w[j] == v[j + 1]);
        } else {
            assert(w[j] == v[j]);
        }
    }
    lemma_position(w, id, w.len() - 1);
}

/// Each entry is taken once: where no two entries share an id, after taking an id
/// out, taking it again finds nothing.
pub proof fn lemma_take_is_single_use(v: Seq<CacheEntry>, id: Seq<char>)
    requires
        distinct_ids(v),
        position(v, id) >= 0,
    ensures
        position(v.remove(position(v, id)), id) < 0,
{
    let p = position(v, id);
    let w = v.remove(p);
    lemma_position_found(v, id);
    assert forall|j: int| 0 <= j < w.len() implies (#[trigger] w[j]).0 != id by {
        if j < p {
            assert(w[j] == v[j]);
        } else {
            assert(w[j] == v[j + 1]);
        }
    }
    lemma_position(w, id, w.len() as int);
}

/// Adding to a full cache lets its oldest entry go: where the ids are distinct, the
/// oldest id is no longer found.
pub proof fn lemma_insert_evicts_oldest(v: Seq<CacheEntry>, id: Seq<char>, payload: Seq<char>)
    requires
        v.len() == MAX_INLINE_CONTEXTS,
        distinct_ids(v.push((id, payload))),
    ensures
        position(after_insert(v, id, payload), v[0].0) < 0,
{
    let pushed = v.push((id, payload));
    let w = after_insert(v, id, payload);
    assert forall|j: int| 0 <= j < w.len() implies (#[trigger] w[j]).0 != v[0].0 by {
        assert(w[j] == pushed[j + 1]);
        assert(pushed[0] == v[0]);
    }
    lemma_position(w, v[0].0, w.len() as int);
}

/// The entries that inserting `payloads` in turn into an empty cache leaves, where the
/// first insert's id carries the number `start`.
pub open spec fn entries_after_inserts(start: nat, payloads: Seq<Seq<char>>) -> Seq<CacheEntry>
    decreases payloads.len(),
{
    if payloads.len() == 0 {
        Seq::empty()
    } else {
        after_insert(
            entries_after_inserts(start, payloads.drop_last()),
            inline_id((start + payloads.len() - 1) as nat),
            payloads.last(),
        )
    }
}

/// How many of `n` inserts the cache still holds: the last `MAX_INLINE_CONTEXTS`.
pub open spec fn kept_count(n: nat) -> nat {
    if n <= MAX_INLINE_CONTEXTS {
        n
    } else {
        MAX_INLINE_CONTEXTS as nat
    }
}

/// The last `kept_count` inserts, oldest first, each under the id of its number.
pub open spec fn kept_window(start: nat, payloads: Seq<Seq<char>>) -> Seq<CacheEntry> {
    let n = payloads.len();
    let m = kept_count(n);
    Seq::new(m, |k: int| (inline_id((start + n - m + k) as nat), payloads[n - m + k]))
}

/// Two different numbers give two different match ids.
pub proof fn lemma_inline_ids_distinct(a: nat, b: nat)
    requires
        a != b,
    ensures
        inline_id(a) != inline_id(b),
{
    crate::text::lemma_dec_digits(a);
    crate::text::lemma_dec_digits(b);
    let p = INLINE_MATCH_ID_PREFIX@;
    if inline_id(a) == inline_id(b) {
        assert(inline_id(a).skip(p.len() as int) =~= dec(a));
        assert(inline_id(b).skip(p.len() as int) =~= dec(b));
    }
}

proof fn lemma_window_distinct(start: nat, payloads: Seq<Seq<char>>)
    ensures
        distinct_ids(kept_window(start, payloads)),
{
    let w = kept_window(start, payloads);
    let n = payloads.len();
    let m = kept_count(n);
    assert forall|i: int, j: int| 0 <= i < j < w.len() implies w[i].0 != w[j].0 by {
        lemma_inline_ids_distinct((start + n - m + i) as nat, (start + n - m + j) as nat);
    }
}

proof fn lemma_inserts_window(start: nat, payloads: Seq<Seq<char>>)
    ensures
        entries_after_inserts(start, payloads) == kept_window(start, payloads),
    decreases payloads.len(),
{
    let n = payloads.len();
    if n > 0 {
        let prev = payloads.drop_last();
        lemma_inserts_window(start, prev);
        let v = kept_window(start, prev);
        let pushed = v.push((inline_id((start + n - 1) as nat), payloads.last()));
        let w = kept_window(start, payloads);
        let m = kept_count(n);
        let pm = kept_count((n - 1) as nat);
        if pushed.len() > MAX_INLINE_CONTEXTS {
            assert(pm == MAX_INLINE_CONTEXTS && m == MAX_INLINE_CONTEXTS);
            assert forall|k: int| 0 <= k < w.len() implies pushed.drop_first()[k] == w[k] by {
                if k + 1 < pushed.len() - 1 {
                    assert(pushed[k + 1] == v[k + 1]);
                    assert(prev[n - 1 - pm + k + 1] == payloads[n - m + k]);
                } else {
                    assert(k == m - 1);
                }
            }
            assert(pushed.drop_first() =~= w);
        } else {
            assert(m == pm + 1);
            assert forall|k: int| 0 <= k < w.len() implies pushed[k] == w[k] by {
                if k < pm {
                    assert(pushed[k] == v[k]);
                    assert(prev[n - 1 - pm + k] == payloads[n - m + k]);
                }
            }
            assert(pushed =~= w);
        }
    }
}

/// What a run of inserts leaves, for `n` inserts into an empty cache whose ids carry
/// `start` onwards: the id of insert `i` is found exactly when `i` is among the last
/// `MAX_INLINE_CONTEXTS` inserts, and then it finds the text of insert `i`; taking it
/// once removes it, so that a second take of that id finds nothing; no two entries share
/// an id; and the cache never holds more than `MAX_INLINE_CONTEXTS`.
pub proof fn lemma_inserts_then_take(start: nat, payloads: Seq<Seq<char>>, i: int)
    requires
        0 <= i < payloads.len(),
    ensures
        ({
            let v = entries_after_inserts(start, payloads);
            let id = inline_id((start + i) as nat);
            &&& v.len() <= MAX_INLINE_CONTEXTS
            &&& distinct_ids(v)
            &&& (position(v, id) >= 0 <==> i + MAX_INLINE_CONTEXTS >= payloads.len())
            &&& position(v, id) >= 0 ==> v[position(v, id)].1 == payloads[i]
            &&& position(v, id) >= 0 ==> position(v.remove(position(v, id)), id) < 0
        }),
{
    let v = entries_after_inserts(start, payloads);
    let id = inline_id((start + i) as nat);
    let n = payloads.len();
    let m = kept_count(n);
    lemma_inserts_window(start, payloads);
    lemma_window_distinct(start, payloads);
    if i + MAX_INLINE_CONTEXTS >= n {
        let k = i - (n - m);
        assert forall|j: int| 0 <= j < k implies (#[trigger] v[j]).0 != id by {
            lemma_inline_ids_distinct((start + n - m + j) as nat, (start + i) as nat);
        }
        lemma_position(v, id, k);
        lemma_take_is_single_use(v, id);
    } else {
        assert forall|j: int| 0 <= j < v.len() implies (#[trigger] v[j]).0 != id by {
            lemma_inline_ids_distinct((start + n - m + j) as nat, (start + i) as nat);
        }
        lemma_position(v, id, v.len() as int);
    }
}

/// An insert into a cache that holds what a run of inserts left continues that run:
/// the cache then holds what the run with one more insert leaves.
pub proof fn lemma_insert_continues_run(start: nat, payloads: Seq<Seq<char>>, payload: Seq<char>)
    ensures
        after_insert(entries_after_inserts(start, payloads), inline_id(start + payloads.len()), payload)
            == entries_after_inserts(start, payloads.push(payload)),
{
    assert(payloads.push(payload).drop_last() =~= payloads);
}

/// Ids after a clear never repeat earlier ones: where the numbering went on from
/// `next` after a clear, the entries that a later run of inserts leaves hold no id whose
/// number came before `next`, so a take of an id handed out before the clear finds
/// nothing.
pub proof fn lemma_clear_keeps_old_ids_away(next: nat, payloads: Seq<Seq<char>>, earlier: nat)
    requires
        earlier < next,
    ensures
        position(entries_after_inserts(next, payloads), inline_id(earlier)) < 0,
{
    let v = entries_after_inserts(next, payloads);
    let n = payloads.len();
    let m = kept_count(n);
    lemma_inserts_window(next, payloads);
    assert forall|j: int| 0 <= j < v.len() implies (#[trigger] v[j]).0 != inline_id(earlier) by {
        lemma_inline_ids_distinct((next + n - m + j) as nat, earlier);
    }
    lemma_position(v, inline_id(earlier), v.len() as int);
}

proof fn lemma_position_found(v: Seq<CacheEntry>, id: Seq<char>)
    requires
        position(v, id) >= 0,
    ensures
        position(v, id) < v.len(),
        v[position(v, id)].0 == id,
        forall|j: int| 0 <= j < position(v, id) ==> (#[trigger] v[j]).0 != id,
    decreases v.len(),
{
    if v[0].0 != id {
        let t = v.drop_first();
        lemma_position_found(t, id);
        assert forall|j: int| 0 <= j < position(v, id) implies (#[trigger] v[j]).0 != id by {
            if j > 0 {
                assert(v[j] == t[j - 1]);
            }
        }
    }
}

impl Default for InlineContextCache {
    fn default() -> (c: InlineContextCache)
        ensures
            c.wf(),
            c.view_entries() == Seq::<CacheEntry>::empty(),
            c.next() == 0,
    {
        InlineContextCache::new()
    }
}

/// Whether a match id belongs to the JSON entries.
pub open spec fn is_json_match_id(id: Seq<char>) -> bool {
    id == OPEN_MATCH_ID@ || INLINE_MATCH_ID_PREFIX@.is_prefix_of(id)
}

/// Whether the match id `match_id` belongs to the JSON entries.
pub fn handles_match_id(match_id: &str) -> (r: bool)
    ensures
        r == is_json_match_id(match_id@),
{
    same_text(match_id, OPEN_MATCH_ID) || has_prefix(match_id, INLINE_MATCH_ID_PREFIX)
}

/// Whether the query, trimmed and lower-cased, is a non-empty prefix of `json`.
pub open spec fn is_json_query(query: Seq<char>) -> bool {
    let q = ascii_lower_seq(trim_spec(query));
    q.len() > 0 && q.is_prefix_of(QUERY_KEYWORD@)
}

/// Whether the query asks for the JSON workbench on the clipboard.
pub fn matches_query(query: &str) -> (r: bool)
    ensures
        r == is_json_query(query@),
{
    let q = to_ascii_lowercase(trim(query));
    !q.as_str().is_empty() && has_prefix(QUERY_KEYWORD, q.as_str())
}

/// Subtext of the entry for JSON typed into KRunner.
pub const INLINE_SUBTEXT: &'static str = "打开 KRunner 输入的 JSON；内容只在本机内存处理";

/// Subtext of the clipboard entry.
pub const CLIPBOARD_SUBTEXT: &'static str = "从剪贴板打开合法 JSON；内容只在本机处理";

/// Whether `m` is the JSON workbench entry with id `id` and subtext `subtext`.
pub open spec fn is_json_match(m: KMatch, id: Seq<char>, subtext: Seq<char>) -> bool {
    &&& m.id@ == id
    &&& m.text@ == "打开 JSON Workbench"@
    &&& m.icon@ == "application-json"@
    &&& m.category_relevance == CATEGORY_RELEVANCE
    &&& m.relevance == Relevance::Full
    &&& m.subtext@ == subtext
    &&& m.category@ == CATEGORY@
}

/// The JSON workbench entry with id `match_id`.
pub fn build_match(match_id: String, subtext: &str) -> (m: KMatch)
    ensures
        is_json_match(m, match_id@, subtext@),
{
    new_match(match_id, String::from_str("打开 JSON Workbench"), "application-json", Relevance::Full,
        String::from_str(subtext))
}

/// Whether `text` is a JSON object or array within the text limit.
pub open spec fn is_structured_json(text: Seq<char>) -> bool {
    &&& within_text_limit(text)
    &&& json_document_kind(text) matches Some(k)
    &&& (k == JsonKind::Object || k == JsonKind::Array)
}

/// The entry for a JSON object or array typed into KRunner: the text is kept in the
/// cache under a fresh id. Other queries (numbers, `true`, `null`, strings, anything
/// that is not JSON) give `None` and leave the cache as it was.
pub fn match_for_inline_query(query: &str, cache: &mut InlineContextCache) -> (r: Option<KMatch>)
    requires
        old(cache).wf(),
    ensures
        final(cache).wf(),
        r is Some <==> is_structured_json(query@),
        r is Some ==> is_json_match(r->0, inline_id(old(cache).next() as nat), INLINE_SUBTEXT@)
            && final(cache).next() == old(cache).next().wrapping_add(1)
            && final(cache).view_entries() == after_insert(
            old(cache).view_entries(),
            inline_id(old(cache).next() as nat),
            query@,
        ),
        r is None ==> final(cache).view_entries() == old(cache).view_entries() && final(cache).next()
            == old(cache).next(),
{
    let context = match Context::from_json_text(query) {
        Ok(c) => c,
        Err(_) => return None,
    };
    let structured = match &context {
        Context::Json { kind, .. } => *kind == JsonKind::Object || *kind == JsonKind::Array,
        _ => false,
    };
    if !structured {
        return None;
    }
    let match_id = cache.insert(String::from_str(context.raw_text()));
    Some(build_match(match_id, INLINE_SUBTEXT))
}

/// Whether the clipboard entry shows for `query` with the clipboard text `clipboard`.
pub open spec fn clipboard_entry_shows(query: Seq<char>, clipboard: Seq<char>) -> bool {
    is_json_query(query) && within_text_limit(clipboard) && json_document_kind(clipboard) is Some
}

/// The clipboard entry, where the query asks for it and the clipboard holds valid
/// JSON within the text limit.
pub fn match_for_clipboard(query: &str, clipboard: &str) -> (r: Option<KMatch>)
    ensures
        r is Some <==> clipboard_entry_shows(query@, clipboard@),
        r is Some ==> is_json_match(r->0, OPEN_MATCH_ID@, CLIPBOARD_SUBTEXT@),
{
    if !matches_query(query) {
        return None;
    }
    match Context::from_json_text(clipboard) {
        Ok(_) => Some(build_match(String::from_str(OPEN_MATCH_ID), CLIPBOARD_SUBTEXT)),
        Err(_) => None,
    }
}

/// What the JSON entries make of a query before the clipboard is read.
#[derive(Debug)]
pub enum JsonLookup {
    /// The query is itself a JSON object or array: this entry.
    Found(KMatch),
    /// The query asks for the clipboard: read it and call `match_for_clipboard`.
    CheckClipboard,
    /// The query is not for the JSON entries.
    NoMatch,
}

/// The first step of the JSON entries for a query: typed-in JSON first, then the
/// clipboard keyword.
pub fn match_for_query(query: &str, cache: &mut InlineContextCache) -> (r: JsonLookup)
    requires
        old(cache).wf(),
    ensures
        final(cache).wf(),
        is_structured_json(query@) ==> (r matches JsonLookup::Found(m) && is_json_match(
            m,
            inline_id(old(cache).next() as nat),
            INLINE_SUBTEXT@,
        ) && final(cache).view_entries() == after_insert(
            old(cache).view_entries(),
            inline_id(old(cache).next() as nat),
            query@,
        )),
        !is_structured_json(query@) ==> final(cache).view_entries() == old(cache).view_entries() && (
        if is_json_query(query@) {
            r is CheckClipboard
        } else {
            r is NoMatch
        }),
{
    match match_for_inline_query(query, cache) {
        Some(m) => JsonLookup::Found(m),
        None => if matches_query(query) {
            JsonLookup::CheckClipboard
        } else {
            JsonLookup::NoMatch
        },
    }
}

/// Where the JSON for a `Run` of a JSON entry comes from.
#[derive(Debug)]
pub enum WorkbenchSource {
    /// Read the clipboard again.
    Clipboard,
    /// The typed-in JSON kept under the match id, now taken out of the cache.
    Inline(String),
}

/// Where the JSON workbench takes its JSON from for the match id `match_id`: the
/// clipboard for the clipboard entry; the cached text for typed-in JSON, which leaves
/// the cache (`JSON input context expired` when it is gone); `unknown JSON match id`
/// for any other id.
pub fn workbench_source(match_id: &str, cache: &mut InlineContextCache) -> (r: Result<WorkbenchSource, String>)
    requires
        old(cache).wf(),
    ensures
        final(cache).wf(),
        match_id@ == OPEN_MATCH_ID@ ==> (r matches Ok(WorkbenchSource::Clipboard) && final(cache).view_entries()
            == old(cache).view_entries()),
        match_id@ != OPEN_MATCH_ID@ && INLINE_MATCH_ID_PREFIX@.is_prefix_of(match_id@) ==> ({
            let p = position(old(cache).view_entries(), match_id@);
            if p < 0 {
                r matches Err(e) && e@ == "JSON input context expired"@
            } else {
                r matches Ok(WorkbenchSource::Inline(t)) && t@ == old(cache).view_entries()[p].1
                    && final(cache).view_entries() == old(cache).view_entries().remove(p)
            }
        }),
        !is_json_match_id(match_id@) ==> (r matches Err(e) && e@ == "unknown JSON match id"@
            && final(cache).view_entries() == old(cache).view_entries()),
{
    if same_text(match_id, OPEN_MATCH_ID) {
        Ok(WorkbenchSource::Clipboard)
    } else if has_prefix(match_id, INLINE_MATCH_ID_PREFIX) {
        match cache.take(match_id) {
            Some(t) => Ok(WorkbenchSource::Inline(t)),
            None => Err(String::from_str("JSON input context expired")),
        }
    } else {
        Err(String::from_str("unknown JSON match id"))
    }
}

} // verus!
