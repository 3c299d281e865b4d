//! Random-string queries: `r16` / `rand16` / `rand 16` (letters and digits),
//! `r+16` (visible ASCII), `rn16` (digits), `rc16` (lower case), `rC16` (upper case);
//! lengths from 1 to 256.

use vstd::prelude::*;
use ::rand::Rng;
use crate::runner::kmatch::{KMatch, Relevance, new_match, CATEGORY, CATEGORY_RELEVANCE};
use crate::text::{lemma_dec_int_chars, lemma_rsplit_once_at, lemma_unsigned_dec, byte_tail, chars_of, dec, has_prefix, is_digit, lower_text, parse_u64, rsplit_once,
    rsplit_once_spec, same_text, str_len, string_of, tail_from_byte, to_lowercase, trim, trim_spec,
    trim_start, trim_start_spec, u64_to_string, unsigned_text};

verus! {

broadcast use vstd::string::group_string_axioms;

/// The characters a random string is drawn from.
#[derive(Debug, Clone, Copy, PartialEq, Eq, Structural)]
pub enum RandMode {
    /// `a-z`, `A-Z`, `0-9`.
    AlphaNum,
    /// Visible ASCII, `!` to `~`.
    Visible,
    /// `0-9`.
    Digits,
    /// `a-z`.
    Lower,
    /// `A-Z`.
    Upper,
}

/// A parsed random-string query.
#[derive(Debug, Clone, Copy, PartialEq, Eq, Structural)]
pub struct RandQuery {
    pub mode: RandMode,
    pub length: usize,
}

/// Longest random string a query may ask for.
pub const MAX_RAND_LENGTH: usize = 256;

/// The length of a string whose query names a mode and no length.
pub const DEFAULT_RAND_LENGTH: usize = 16;

pub open spec fn mode_name(m: RandMode) -> Seq<char> {
    match m {
        RandMode::AlphaNum => "alphanum"@,
        RandMode::Visible => "visible"@,
        RandMode::Digits => "digits"@,
        RandMode::Lower => "lower"@,
        RandMode::Upper => "upper"@,
    }
}

pub open spec fn mode_title_head(m: RandMode) -> Seq<char> {
    match m {
        RandMode::AlphaNum => "随机字母数字 ("@,
        RandMode::Visible => "随机可见字符 ("@,
        RandMode::Digits => "随机数字 ("@,
        RandMode::Lower => "随机小写字母 ("@,
        RandMode::Upper => "随机大写字母 ("@,
    }
}

/// The title of a random-string match: e.g. `随机数字 (16 位)`.
pub open spec fn mode_title(m: RandMode, length: nat) -> Seq<char> {
    mode_title_head(m) + dec(length) + " 位)"@
}

/// Whether `c` belongs to the characters of `m`.
pub open spec fn in_alphabet(m: RandMode, c: char) -> bool {
    match m {
        RandMode::AlphaNum => is_digit(c) || ('A' <= c && c <= 'Z') || ('a' <= c && c <= 'z'),
        RandMode::Visible => '!' <= c && c <= '~',
        RandMode::Digits => is_digit(c),
        RandMode::Lower => 'a' <= c && c <= 'z',
        RandMode::Upper => 'A' <= c && c <= 'Z',
    }
}

impl RandMode {
    pub fn as_str(&self) -> (s: &'static str)
        ensures
            s@ == mode_name(*self),
    {
        match self {
            RandMode::AlphaNum => "alphanum",
            RandMode::Visible => "visible",
            RandMode::Digits => "digits",
            RandMode::Lower => "lower",
            RandMode::Upper => "upper",
        }
    }

    /// Inverse of `as_str`.
    pub fn from_str(s: &str) -> (r: Option<RandMode>)
        ensures
            r == (if s@ == "alphanum"@ {
                Some(RandMode::AlphaNum)
            } else if s@ == "visible"@ {
                Some(RandMode::Visible)
            } else if s@ == "digits"@ {
                Some(RandMode::Digits)
            } else if s@ == "lower"@ {
                Some(RandMode::Lower)
            } else if s@ == "upper"@ {
                Some(RandMode::Upper)
            } else {
                None::<RandMode>
            }),
    {
        if same_text(s, "alphanum") {
            Some(RandMode::AlphaNum)
        } else if same_text(s, "visible") {
            Some(RandMode::Visible)
        } else if same_text(s, "digits") {
            Some(RandMode::Digits)
        } else if same_text(s, "lower") {
            Some(RandMode::Lower)
        } else if same_text(s, "upper") {
            Some(RandMode::Upper)
        } else {
            None
        }
    }

    /// The match title for a string of `length` characters.
    pub fn title(&self, length: usize) -> (s: String)
        ensures
            s@ == mode_title(*self, length as nat),
    {
        let mut s = String::from_str(match self {
            RandMode::AlphaNum => "随机字母数字 (",
            RandMode::Visible => "随机可见字符 (",
            RandMode::Digits => "随机数字 (",
            RandMode::Lower => "随机小写字母 (",
            RandMode::Upper => "随机大写字母 (",
        });
        let n = u64_to_string(length as u64);
        s.append(n.as_str());
        s.append(" 位)");
        s
    }
}

/// Byte length of the `rand` or `r` prefix that the lower-cased query starts with.
pub open spec fn rand_prefix_len(lowered: Seq<char>) -> Option<int> {
    if "rand"@.is_prefix_of(lowered) {
        Some(4)
    } else if "r"@.is_prefix_of(lowered) {
        Some(1)
    } else {
        None
    }
}

/// The mode named by the first character after the prefix, and where the length starts.
pub open spec fn mode_of_marker(c: char) -> Option<(RandMode, int)> {
    if c == '+' {
        Some((RandMode::Visible, 1))
    } else if c == 'n' || c == 'N' {
        Some((RandMode::Digits, 1))
    } else if c == 'C' {
        Some((RandMode::Upper, 1))
    } else if c == 'c' {
        Some((RandMode::Lower, 1))
    } else if is_digit(c) {
        Some((RandMode::AlphaNum, 0))
    } else {
        None
    }
}

/// Whether slicing the trimmed query after its prefix stays on a character boundary,
/// as the slicing in the query parser needs.
pub open spec fn rand_prefix_fits(raw: Seq<char>, lowered: Seq<char>) -> bool {
    match rand_prefix_len(lowered) {
        Some(n) => byte_tail(raw, n) is Some,
        None => true,
    }
}

/// The random-string query that the trimmed query `raw`, whose lower-case form is
/// `lowered`, asks for. A mode marker with nothing after it asks for the default length;
/// a length that is written out needs a query of at least three bytes.
pub open spec fn rand_query_spec(raw: Seq<char>, lowered: Seq<char>) -> Option<RandQuery> {
    if str_len(raw) < 2 {
        None
    } else {
        match rand_prefix_len(lowered) {
            None => None,
            Some(n) => match byte_tail(raw, n) {
                None => None,
                Some(tail) => {
                    let after = trim_start_spec(tail);
                    if after.len() == 0 {
                        None
                    } else {
                        match mode_of_marker(after[0]) {
                            None => None,
                            Some((mode, offset)) => if trim_start_spec(after.skip(offset)).len() == 0 {
                                Some(RandQuery { mode, length: DEFAULT_RAND_LENGTH })
                            } else if str_len(raw) < 3 {
                                None
                            } else {
                                match unsigned_text(trim_start_spec(after.skip(offset))) {
                                    Some(v) => if 1 <= v <= MAX_RAND_LENGTH {
                                        Some(RandQuery { mode, length: v as usize })
                                    } else {
                                        None
                                    },
                                    None => None,
                                }
                            },
                        }
                    }
                },
            },
        }
    }
}

/// The random-string query asked for by the trimmed query `raw`, given its lower-case
/// form `lowered`.
pub fn parse_rand_query_lowered(raw: &str, lowered: &str) -> (r: Option<RandQuery>)
    requires
        rand_prefix_fits(raw@, lowered@),
    ensures
        r == rand_query_spec(raw@, lowered@),
{
    proof {
        reveal_strlit("rand");
        reveal_strlit("r");
    }
    if raw.len() < 2 {
        return None;
    }
    let prefix_len: usize = if has_prefix(lowered, "rand") {
        4
    } else if has_prefix(lowered, "r") {
        1
    } else {
        return None;
    };
    let tail = match tail_from_byte(raw, prefix_len) {
        Some(t) => t,
        None => return None,
    };
    let after = trim_start(tail);
    let chars = chars_of(after);
    if chars.len() == 0 {
        return None;
    }
    let first = chars[0];
    let (mode, offset): (RandMode, usize) = if first == '+' {
        (RandMode::Visible, 1)
    } else if first == 'n' || first == 'N' {
        (RandMode::Digits, 1)
    } else if first == 'C' {
        (RandMode::Upper, 1)
    } else if first == 'c' {
        (RandMode::Lower, 1)
    } else if first >= '0' && first <= '9' {
        (RandMode::AlphaNum, 0)
    } else {
        return None;
    };
    let rest = after.substring_char(offset, chars.len());
    assert(rest@ == after@.skip(offset as int));
    let num = trim_start(rest);
    if num.unicode_len() == 0 {
        return Some(RandQuery { mode, length: DEFAULT_RAND_LENGTH });
    }
    if raw.len() < 3 {
        return None;
    }
    match parse_u64(num) {
        Some(v) => {
            if 1 <= v && v <= 256 {
                Some(RandQuery { mode, length: v as usize })
            } else {
                None
            }
        },
        None => None,
    }
}

/// The random-string query that a query asks for: trimmed, then read with its
/// lower-case form; `None` where the prefix that the lower-case form shows does not end
/// on a character boundary of the trimmed query.
pub open spec fn rand_query_of(query: Seq<char>) -> Option<RandQuery> {
    let raw = trim_spec(query);
    let lowered = lower_text(raw);
    if str_len(raw) < 2 {
        None
    } else if rand_prefix_fits(raw, lowered) {
        rand_query_spec(raw, lowered)
    } else {
        None
    }
}

/// Parses a random-string query; `None` when the query is not one.
pub fn parse_rand_query(query: &str) -> (r: Option<RandQuery>)
    ensures
        r == rand_query_of(query@),
{
    let raw = trim(query);
    if raw.len() < 2 {
        return None;
    }
    let lowered = to_lowercase(raw);
    proof {
        reveal_strlit("rand");
        reveal_strlit("r");
    }
    let prefix_len: usize = if has_prefix(lowered.as_str(), "rand") {
        4
    } else if has_prefix(lowered.as_str(), "r") {
        1
    } else {
        0
    };
    if prefix_len > 0 && tail_from_byte(raw, prefix_len).is_none() {
        return None;
    }
    parse_rand_query_lowered(raw, lowered.as_str())
}


/// `Rng::gen_range(0..n)` of the rand crate on the thread-local generator: an index
/// below `n`. Which index comes is not stated.
#[verifier::external_body]
fn random_index(n: usize) -> (i: usize)
    requires
        n > 0,
    ensures
        i < n,
{
    ::rand::thread_rng().gen_range(0..n)
}

/// The characters from `lo` to `hi` (code points), in order.
pub open spec fn char_range(lo: char, hi: char) -> Seq<char> {
    Seq::new(((hi as int) - (lo as int) + 1) as nat, |k: int| ((lo as int) + k) as char)
}

/// The characters a random string of mode `m` is drawn from, in the order they are
/// drawn from: digits, then upper case, then lower case for `AlphaNum`; code-point
/// order otherwise.
pub open spec fn rand_alphabet(m: RandMode) -> Seq<char> {
    match m {
        RandMode::AlphaNum => char_range('0', '9') + char_range('A', 'Z') + char_range('a', 'z'),
        RandMode::Visible => char_range('!', '~'),
        RandMode::Digits => char_range('0', '9'),
        RandMode::Lower => char_range('a', 'z'),
        RandMode::Upper => char_range('A', 'Z'),
    }
}

proof fn lemma_char_range_contains(lo: char, hi: char, c: char)
    requires
        lo <= c <= hi,
    ensures
        char_range(lo, hi).contains(c),
{
    let k = (c as int) - (lo as int);
    assert(char_range(lo, hi)[k] == c);
}

/// Every character of a mode's alphabet can be drawn: the characters that random
/// strings of mode `m` are drawn from are exactly the characters of that mode, each
/// once (ten digits, 26 letters of a case, 62 letters and digits, 94 visible ASCII
/// characters).
pub proof fn lemma_rand_alphabet_whole(m: RandMode)
    ensures
        forall|c: char| in_alphabet(m, c) <==> rand_alphabet(m).contains(c),
        forall|i: int, j: int| 0 <= i < j < rand_alphabet(m).len() ==> rand_alphabet(m)[i] != rand_alphabet(m)[j],
        rand_alphabet(m).len() == match m {
            RandMode::AlphaNum => 62int,
            RandMode::Visible => 94int,
            RandMode::Digits => 10int,
            RandMode::Lower => 26int,
            RandMode::Upper => 26int,
        },
{
    let a = rand_alphabet(m);
    assert forall|c: char| in_alphabet(m, c) implies a.contains(c) by {
        match m {
            RandMode::AlphaNum => {
                let d = char_range('0', '9');
                let u = char_range('A', 'Z');
                let l = char_range('a', 'z');
                if is_digit(c) {
                    lemma_char_range_contains('0', '9', c);
                    let k = choose|k: int| 0 <= k < d.len() && d[k] == c;
                    assert(a[k] == c);
                } else if 'A' <= c && c <= 'Z' {
                    lemma_char_range_contains('A', 'Z', c);
                    let k = choose|k: int| 0 <= k < u.len() && u[k] == c;
                    assert(a[d.len() + k] == c);
                } else {
                    lemma_char_range_contains('a', 'z', c);
                    let k = choose|k: int| 0 <= k < l.len() && l[k] == c;
                    assert(a[d.len() + u.len() + k] == c);
                }
            },
            RandMode::Visible => lemma_char_range_contains('!', '~', c),
            RandMode::Digits => lemma_char_range_contains('0', '9', c),
            RandMode::Lower => lemma_char_range_contains('a', 'z', c),
            RandMode::Upper => lemma_char_range_contains('A', 'Z', c),
        }
    }
    assert forall|c: char| a.contains(c) implies in_alphabet(m, c) by {
        let k = choose|k: int| 0 <= k < a.len() && a[k] == c;
        if m is AlphaNum {
            if k >= 10 && k < 36 {
                assert(a[k] == char_range('A', 'Z')[k - 10]);
            } else if k >= 36 {
                assert(a[k] == char_range('a', 'z')[k - 36]);
            }
        }
    }
    assert forall|i: int, j: int| 0 <= i < j < a.len() implies a[i] != a[j] by {
        if m is AlphaNum {
            if i >= 10 && i < 36 {
                assert(a[i] == char_range('A', 'Z')[i - 10]);
            } else if i >= 36 {
                assert(a[i] == char_range('a', 'z')[i - 36]);
            }
            if j >= 10 && j < 36 {
                assert(a[j] == char_range('A', 'Z')[j - 10]);
            } else if j >= 36 {
                assert(a[j] == char_range('a', 'z')[j - 36]);
            }
        }
    }
}

/// The characters of `m`, in the order they are drawn from: digits, then upper
/// case, then lower case for `AlphaNum`; code-point order otherwise.
fn alphabet(m: &RandMode) -> (v: Vec<char>)
    ensures
        v@ == rand_alphabet(*m),
        v.len() > 0,
        forall|i: int| 0 <= i < v.len() ==> in_alphabet(*m, #[trigger] v@[i]),
{
    let mut v: Vec<char> = Vec::new();
    match m {
        RandMode::AlphaNum => {
            push_range(&mut v, '0', '9', m);
            push_range(&mut v, 'A', 'Z', m);
            push_range(&mut v, 'a', 'z', m);
        },
        RandMode::Visible => push_range(&mut v, '!', '~', m),
        RandMode::Digits => push_range(&mut v, '0', '9', m),
        RandMode::Lower => push_range(&mut v, 'a', 'z', m),
        RandMode::Upper => push_range(&mut v, 'A', 'Z', m),
    }
    v
}

/// Appends the characters from `lo` to `hi` (both ASCII, `lo <= hi`).
fn push_range(v: &mut Vec<char>, lo: char, hi: char, m: &RandMode)
    requires
        (lo as u32) <= (hi as u32) < 128,
        forall|c: char| lo <= c && c <= hi ==> in_alphabet(*m, c),
        forall|i: int| 0 <= i < old(v).len() ==> in_alphabet(*m, #[trigger] old(v)@[i]),
    ensures
        final(v)@ == old(v)@ + char_range(lo, hi),
        final(v).len() == old(v).len() + (hi as u32 - lo as u32) + 1,
        forall|i: int| 0 <= i < final(v).len() ==> in_alphabet(*m, #[trigger] final(v)@[i]),
{
    let lo_b: u8 = lo as u8;
    let hi_b: u8 = hi as u8;
    let mut b: u8 = lo_b;
    let ghost start = v.len();
    let ghost first = v@;
    while b <= hi_b
        invariant
            lo_b == lo as u32,
            hi_b == hi as u32,
            hi_b < 128,
            lo_b <= b <= hi_b + 1,
            v.len() == start + (b - lo_b),
            first.len() == start,
            v@ == first + Seq::new((b - lo_b) as nat, |k: int| ((lo as int) + k) as char),
            forall|c: char| lo <= c && c <= hi ==> in_alphabet(*m, c),
            forall|i: int| 0 <= i < v.len() ==> in_alphabet(*m, #[trigger] v@[i]),
        decreases hi_b + 1 - b,
    {
        let c = b as char;
        assert(lo <= c && c <= hi);
        let ghost before = v@;
        v.push(c);
        b = b + 1;
        assert(v@ =~= first + Seq::new((b - lo_b) as nat, |k: int| ((lo as int) + k) as char));
    }
    assert(v@ =~= first + char_range(lo, hi));
}

/// A fresh random string of `length` characters, each drawn from the whole alphabet
/// of `mode` (`rand_alphabet`, which holds every character of the mode).
pub fn generate_rand(mode: &RandMode, length: usize) -> (s: String)
    ensures
        s@.len() == length,
        forall|i: int| 0 <= i < length ==> in_alphabet(*mode, #[trigger] s@[i]),
        forall|i: int| 0 <= i < length ==> rand_alphabet(*mode).contains(#[trigger] s@[i]),
{
    let chars = alphabet(mode);
    let mut out: Vec<char> = Vec::new();
    let mut i: usize = 0;
    while i < length
        invariant
            i <= length,
            out.len() == i,
            chars.len() > 0,
            forall|j: int| 0 <= j < chars.len() ==> in_alphabet(*mode, #[trigger] chars@[j]),
            forall|j: int| 0 <= j < i ==> in_alphabet(*mode, #[trigger] out@[j]),
            chars@ == rand_alphabet(*mode),
            forall|j: int| 0 <= j < i ==> rand_alphabet(*mode).contains(#[trigger] out@[j]),
        decreases length - i,
    {
        let k = random_index(chars.len());
        assert(rand_alphabet(*mode)[k as int] == chars@[k as int]);
        out.push(chars[k]);
        i = i + 1;
    }
    string_of(&out)
}

/// The match id of a random-string query: `rand:<mode>:<length>`.
pub open spec fn rand_match_id(q: RandQuery) -> Seq<char> {
    "rand:"@ + mode_name(q.mode) + ":"@ + dec(q.length as nat)
}

/// Whether `s` is a random string that the query may produce.
pub open spec fn is_rand_text(s: Seq<char>, mode: RandMode, length: nat) -> bool {
    &&& s.len() == length
    &&& forall|i: int| 0 <= i < length ==> in_alphabet(mode, #[trigger] s[i])
}

/// Whether `r` is the single match of the random-string query `q`, with a string of
/// its mode and length as subtext.
pub open spec fn rand_matches_ok(r: Seq<KMatch>, q: RandQuery) -> bool {
    &&& r.len() == 1
    &&& r[0].id@ == rand_match_id(q)
    &&& r[0].text@ == mode_title(q.mode, q.length as nat)
    &&& r[0].icon@ == "code-class"@
    &&& r[0].category_relevance == CATEGORY_RELEVANCE
    &&& r[0].relevance == Relevance::High
    &&& r[0].category@ == CATEGORY@
    &&& is_rand_text(r[0].subtext@, q.mode, q.length as nat)
}

/// The single match of a random-string query; its subtext is a fresh random string.
pub fn build_rand_matches(rand: &RandQuery) -> (r: Vec<KMatch>)
    ensures
        rand_matches_ok(r@, *rand),
{
    let value = generate_rand(&rand.mode, rand.length);
    let mut id = String::from_str("rand:");
    id.append(rand.mode.as_str());
    id.append(":");
    let n = u64_to_string(rand.length as u64);
    id.append(n.as_str());
    let title = rand.mode.title(rand.length);
    let m = new_match(id, title, "code-class", Relevance::High, value);
    let mut r: Vec<KMatch> = Vec::new();
    r.push(m);
    r
}

/// Mode and length named by the id suffix `<mode>:<length>`.
pub open spec fn rand_id_parts(suffix: Seq<char>) -> Option<(RandMode, nat)> {
    match rsplit_once_spec(suffix, ':') {
        None => None,
        Some((m, n)) => {
            let mode = if m == "alphanum"@ {
                Some(RandMode::AlphaNum)
            } else if m == "visible"@ {
                Some(RandMode::Visible)
            } else if m == "digits"@ {
                Some(RandMode::Digits)
            } else if m == "lower"@ {
                Some(RandMode::Lower)
            } else if m == "upper"@ {
                Some(RandMode::Upper)
            } else {
                None
            };
            match (mode, unsigned_text(n)) {
                (Some(a), Some(len)) => if len <= usize::MAX {
                    Some((a, len))
                } else {
                    None
                },
                _ => None,
            }
        },
    }
}

/// A fresh random string for the id suffix `<mode>:<length>`; `None` when the suffix
/// names no mode and length.
pub fn value_for_rand_id(suffix: &str) -> (r: Option<String>)
    ensures
        match rand_id_parts(suffix@) {
            None => r is None,
            Some((m, len)) => r is Some && is_rand_text(r->0@, m, len),
        },
{
    let (mode_str, len_str) = match rsplit_once(suffix, ':') {
        Some(p) => p,
        None => return None,
    };
    let mode = match RandMode::from_str(mode_str) {
        Some(m) => m,
        None => return None,
    };
    let length: usize = match parse_u64(len_str) {
        Some(v) => {
            if v as u128 <= usize::MAX as u128 {
                v as usize
            } else {
                return None;
            }
        },
        None => return None,
    };
    Some(generate_rand(&mode, length))
}

/// The id of a random-string match names its query again: the part after `rand:`
/// gives back the mode and the length, so running the match yields a fresh string of
/// that mode and length.
pub proof fn lemma_rand_id_roundtrip(q: RandQuery)
    ensures
        rand_match_id(q) == "rand:"@ + (mode_name(q.mode) + ":"@ + dec(q.length as nat)),
        rand_id_parts(mode_name(q.mode) + ":"@ + dec(q.length as nat)) == Some((q.mode, q.length as nat)),
{
    reveal_strlit(":");
    reveal_strlit("alphanum");
    reveal_strlit("visible");
    reveal_strlit("digits");
    reveal_strlit("lower");
    reveal_strlit("upper");
    let m = mode_name(q.mode);
    let n = dec(q.length as nat);
    lemma_dec_int_chars(q.length as int, ':');
    assert(m + ":"@ + n =~= m + seq![':'] + n);
    lemma_rsplit_once_at(m, n, ':');
    lemma_unsigned_dec(q.length as nat);
    assert("alphanum"@.len() == 8 && "visible"@.len() == 7 && "digits"@.len() == 6);
    assert("lower"@.len() == 5 && "upper"@.len() == 5 && "lower"@[0] != "upper"@[0]);
    assert(rand_match_id(q) =~= "rand:"@ + (m + ":"@ + n));
}

} // verus!
