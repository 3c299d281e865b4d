//! UUID queries: `uuid` / `u`, an optional version digit (`1`, `4`, `7`) and an
//! optional format letter (`c` compact, `C` upper case); `UUID` alone is upper case.

use vstd::prelude::*;
use ::rand::Rng;
use crate::runner::kmatch::{KMatch, Relevance, new_match, CATEGORY, CATEGORY_RELEVANCE};
use crate::text::{lemma_rsplit_once_at, ascii_upper_seq, to_ascii_uppercase, rsplit_once, rsplit_once_spec, same_text, has_prefix, chars_of, trim, to_lowercase, tail_from_byte, lower_text, trim_spec, byte_tail, is_digit};


verus! {

broadcast use vstd::string::group_string_axioms;

/// UUID version.
#[derive(Debug, Clone, Copy, PartialEq, Eq, Structural)]
pub enum UuidVersion {
    V1,
    V4,
    V7,
}

/// UUID text format.
#[derive(Debug, Clone, Copy, PartialEq, Eq, Structural)]
pub enum UuidFormat {
    /// Lower case with hyphens: `550e8400-e29b-41d4-a716-446655440000`.
    Standard,
    /// Lower case without hyphens: `550e8400e29b41d4a716446655440000`.
    Compact,
    /// Upper case with hyphens: `550E8400-E29B-41D4-A716-446655440000`.
    Upper,
}

/// A parsed UUID query.
#[derive(Debug, Clone, Copy, PartialEq, Eq, Structural)]
pub struct UuidQuery {
    pub version: UuidVersion,
    pub format: UuidFormat,
}

pub open spec fn version_name(v: UuidVersion) -> Seq<char> {
    match v {
        UuidVersion::V1 => "v1"@,
        UuidVersion::V4 => "v4"@,
        UuidVersion::V7 => "v7"@,
    }
}

pub open spec fn format_name(f: UuidFormat) -> Seq<char> {
    match f {
        UuidFormat::Standard => "standard"@,
        UuidFormat::Compact => "compact"@,
        UuidFormat::Upper => "upper"@,
    }
}

/// The version number that a UUID of this version carries in its version nibble.
pub open spec fn version_number(v: UuidVersion) -> u8 {
    match v {
        UuidVersion::V1 => 1,
        UuidVersion::V4 => 4,
        UuidVersion::V7 => 7,
    }
}

impl UuidVersion {
    pub fn as_str(&self) -> (s: &'static str)
        ensures
            s@ == version_name(*self),
    {
        match self {
            UuidVersion::V1 => "v1",
            UuidVersion::V4 => "v4",
            UuidVersion::V7 => "v7",
        }
    }

    /// Inverse of `as_str`.
    pub fn from_str(s: &str) -> (r: Option<UuidVersion>)
        ensures
            r == (if s@ == "v1"@ {
                Some(UuidVersion::V1)
            } else if s@ == "v4"@ {
                Some(UuidVersion::V4)
            } else if s@ == "v7"@ {
                Some(UuidVersion::V7)
            } else {
                None::<UuidVersion>
            }),
    {
        if same_text(s, "v1") {
            Some(UuidVersion::V1)
        } else if same_text(s, "v4") {
            Some(UuidVersion::V4)
        } else if same_text(s, "v7") {
            Some(UuidVersion::V7)
        } else {
            None
        }
    }

    /// Label shown in the match title.
    pub fn label(&self) -> (s: &'static str)
        ensures
            s@ == version_name(*self),
    {
        match self {
            UuidVersion::V1 => "v1",
            UuidVersion::V4 => "v4",
            UuidVersion::V7 => "v7",
        }
    }
}

pub open spec fn format_suffix(f: UuidFormat) -> Seq<char> {
    match f {
        UuidFormat::Standard => "小写，带连字符"@,
        UuidFormat::Compact => "紧凑格式，无连字符"@,
        UuidFormat::Upper => "大写，带连字符"@,
    }
}

impl UuidFormat {
    pub fn as_str(&self) -> (s: &'static str)
        ensures
            s@ == format_name(*self),
    {
        match self {
            UuidFormat::Standard => "standard",
            UuidFormat::Compact => "compact",
            UuidFormat::Upper => "upper",
        }
    }

    /// Inverse of `as_str`.
    pub fn from_str(s: &str) -> (r: Option<UuidFormat>)
        ensures
            r == (if s@ == "standard"@ {
                Some(UuidFormat::Standard)
            } else if s@ == "compact"@ {
                Some(UuidFormat::Compact)
            } else if s@ == "upper"@ {
                Some(UuidFormat::Upper)
            } else {
                None::<UuidFormat>
            }),
    {
        if same_text(s, "standard") {
            Some(UuidFormat::Standard)
        } else if same_text(s, "compact") {
            Some(UuidFormat::Compact)
        } else if same_text(s, "upper") {
            Some(UuidFormat::Upper)
        } else {
            None
        }
    }

    /// Description of the format shown in the match title; the same for every version.
    pub fn suffix(&self, version: &UuidVersion) -> (s: &'static str)
        ensures
            s@ == format_suffix(*self),
    {
        match self {
            UuidFormat::Standard => "小写，带连字符",
            UuidFormat::Compact => "紧凑格式，无连字符",
            UuidFormat::Upper => "大写，带连字符",
        }
    }
}


/// The version named by a version digit, if the digit names one.
pub open spec fn version_of_digit(c: char) -> Option<UuidVersion> {
    if c == '1' {
        Some(UuidVersion::V1)
    } else if c == '4' {
        Some(UuidVersion::V4)
    } else if c == '7' {
        Some(UuidVersion::V7)
    } else {
        None
    }
}

/// The format named by what follows the version digit: nothing, `c` or `C`.
pub open spec fn format_of_tail(rest: Seq<char>) -> Option<UuidFormat> {
    if rest.len() == 0 {
        Some(UuidFormat::Standard)
    } else if rest.len() == 1 && rest[0] == 'c' {
        Some(UuidFormat::Compact)
    } else if rest.len() == 1 && rest[0] == 'C' {
        Some(UuidFormat::Upper)
    } else {
        None
    }
}

/// Version digit and format letter after the `u` / `uuid` prefix: at most one
/// digit (`1`, `4` or `7`), then at most one of `c` / `C`, and nothing else.
pub open spec fn version_format_spec(after: Seq<char>) -> Option<UuidQuery> {
    if after.len() == 0 {
        None
    } else if is_digit(after[0]) {
        match version_of_digit(after[0]) {
            None => None,
            Some(v) => match format_of_tail(after.drop_first()) {
                Some(f) => Some(UuidQuery { version: v, format: f }),
                None => None,
            },
        }
    } else {
        match format_of_tail(after) {
            Some(f) => Some(UuidQuery { version: UuidVersion::V4, format: f }),
            None => None,
        }
    }
}

/// Byte length of the `uuid` or `u` prefix that the lower-cased query starts with.
pub open spec fn uuid_prefix_len(lowered: Seq<char>) -> Option<int> {
    if "uuid"@.is_prefix_of(lowered) {
        Some(4)
    } else if "u"@.is_prefix_of(lowered) {
        Some(1)
    } else {
        None
    }
}

pub open spec fn all_ascii_upper(s: Seq<char>) -> bool {
    forall|i: int| 0 <= i < s.len() ==> 'A' <= #[trigger] s[i] && s[i] <= 'Z'
}

/// The UUID query that the trimmed query `raw`, whose lower-case form is `lowered`,
/// asks for. (When `raw` is all ASCII upper case, its length in characters is its
/// length in bytes.)
pub open spec fn uuid_query_spec(raw: Seq<char>, lowered: Seq<char>) -> Option<UuidQuery> {
    match uuid_prefix_len(lowered) {
        None => None,
        Some(n) => match byte_tail(raw, n) {
            None => None,
            Some(tail) => {
                let after = trim_spec(tail);
                match version_format_spec(after) {
                    Some(q) => Some(q),
                    None => if after.len() == 0 {
                        if all_ascii_upper(raw) && raw.len() > 1 {
                            Some(UuidQuery { version: UuidVersion::V4, format: UuidFormat::Upper })
                        } else {
                            Some(UuidQuery { version: UuidVersion::V4, format: UuidFormat::Standard })
                        }
                    } else {
                        None
                    },
                }
            },
        },
    }
}

/// Version and format after the prefix.
pub fn parse_version_format(after: &str) -> (r: Option<UuidQuery>)
    ensures
        r == version_format_spec(after@),
{
    let chars = chars_of(after);
    if chars.len() == 0 {
        return None;
    }
    let mut pos: usize = 0;
    let mut version: Option<UuidVersion> = None;
    let mut format: Option<UuidFormat> = None;
    if chars[0] >= '0' && chars[0] <= '9' {
        let c = chars[0];
        if c == '1' {
            version = Some(UuidVersion::V1);
        } else if c == '4' {
            version = Some(UuidVersion::V4);
        } else if c == '7' {
            version = Some(UuidVersion::V7);
        } else {
            return None;
        }
        pos = 1;
    }
    if pos < chars.len() {
        if chars[pos] == 'c' {
            format = Some(UuidFormat::Compact);
        } else if chars[pos] == 'C' {
            format = Some(UuidFormat::Upper);
        } else {
            proof {
                if pos == 1 {
                    assert(after@.drop_first()[0] == chars@[1]);
                }
            }
            return None;
        }
        pos = pos + 1;
    }
    if pos != chars.len() {
        proof {
            if pos == 2 {
                assert(after@.drop_first().len() == chars.len() - 1);
            }
        }
        return None;
    }
    proof {
        if version.is_some() && chars.len() == 2 {
            assert(after@.drop_first()[0] == chars@[1]);
        }
    }
    let v = match version {
        Some(v) => v,
        None => UuidVersion::V4,
    };
    let f = match format {
        Some(f) => f,
        None => UuidFormat::Standard,
    };
    Some(UuidQuery { version: v, format: f })
}

/// Whether every character of `s` is an ASCII upper-case letter.
fn is_all_ascii_upper(s: &str) -> (r: bool)
    ensures
        r == all_ascii_upper(s@),
{
    let v = chars_of(s);
    let mut i: usize = 0;
    while i < v.len()
        invariant
            v@ == s@,
            i <= v.len(),
            forall|j: int| 0 <= j < i ==> 'A' <= #[trigger] v@[j] && v@[j] <= 'Z',
        decreases v.len() - i,
    {
        if !(v[i] >= 'A' && v[i] <= 'Z') {
            return false;
        }
        i = i + 1;
    }
    true
}

/// The UUID query asked for by the trimmed query `raw`, given its lower-case form
/// `lowered`.
pub fn parse_uuid_query_lowered(raw: &str, lowered: &str) -> (r: Option<UuidQuery>)
    ensures
        r == uuid_query_spec(raw@, lowered@),
{
    proof {
        reveal_strlit("uuid");
        reveal_strlit("u");
    }
    let prefix_len: usize = if has_prefix(lowered, "uuid") {
        4
    } else if has_prefix(lowered, "u") {
        1
    } else {
        return None;
    };
    let tail = match tail_from_byte(raw, prefix_len) {
        Some(t) => t,
        None => return None,
    };
    let after = trim(tail);
    match parse_version_format(after) {
        Some(q) => Some(q),
        None => {
            if after.is_empty() {
                if is_all_ascii_upper(raw) && chars_of(raw).len() > 1 {
                    Some(UuidQuery { version: UuidVersion::V4, format: UuidFormat::Upper })
                } else {
                    Some(UuidQuery { version: UuidVersion::V4, format: UuidFormat::Standard })
                }
            } else {
                None
            }
        },
    }
}

/// The UUID query that a query asks for: trimmed, then read with its lower-case form.
pub open spec fn uuid_query_of(query: Seq<char>) -> Option<UuidQuery> {
    if trim_spec(query).len() == 0 {
        None
    } else {
        uuid_query_spec(trim_spec(query), lower_text(trim_spec(query)))
    }
}

/// Parses a UUID query; `None` when the query is not one.
pub fn parse_uuid_query(query: &str) -> (r: Option<UuidQuery>)
    ensures
        r == uuid_query_of(query@),
{
    let raw = trim(query);
    if raw.is_empty() {
        return None;
    }
    let lowered = to_lowercase(raw);
    parse_uuid_query_lowered(raw, lowered.as_str())
}


/// Lower-case hexadecimal digit for `n` in `0..16`.
pub open spec fn hex_digit(n: int) -> char {
    if n < 10 {
        (48 + n) as char
    } else {
        (87 + n) as char
    }
}

/// Two lower-case hexadecimal digits per byte, most significant first.
pub open spec fn hex_lower(b: Seq<u8>) -> Seq<char>
    decreases b.len(),
{
    if b.len() == 0 {
        seq![]
    } else {
        hex_lower(b.drop_last()) + seq![hex_digit(b.last() as int / 16), hex_digit(b.last() as int % 16)]
    }
}

/// The hyphenated form of a UUID's 16 bytes: groups of 4, 2, 2, 2 and 6 bytes.
pub open spec fn hyphenated_text(b: Seq<u8>) -> Seq<char> {
    hex_lower(b.subrange(0, 4)) + seq!['-'] + hex_lower(b.subrange(4, 6)) + seq!['-']
        + hex_lower(b.subrange(6, 8)) + seq!['-'] + hex_lower(b.subrange(8, 10)) + seq!['-']
        + hex_lower(b.subrange(10, 16))
}

/// The simple form of a UUID's 16 bytes: 32 hexadecimal digits.
pub open spec fn simple_text(b: Seq<u8>) -> Seq<char> {
    hex_lower(b)
}

/// The bytes of a UUID of the given version: 16 bytes, the version in the high
/// nibble of byte 6, and the RFC 4122 variant (`10`) in the high bits of byte 8.
pub open spec fn uuid_shape(b: Seq<u8>, version: u8) -> bool {
    &&& b.len() == 16
    &&& b[6] / 16 == version
    &&& b[8] / 64 == 2
}

/// A UUID's text in the given format.
pub open spec fn uuid_text(b: Seq<u8>, format: UuidFormat) -> Seq<char> {
    match format {
        UuidFormat::Standard => hyphenated_text(b),
        UuidFormat::Compact => simple_text(b),
        UuidFormat::Upper => ascii_upper_seq(hyphenated_text(b)),
    }
}

/// Whether `s` is the text, in `format`, of some UUID of `version`.
pub open spec fn is_uuid_text(s: Seq<char>, version: UuidVersion, format: UuidFormat) -> bool {
    exists|b: Seq<u8>| uuid_shape(b, version_number(version)) && s == uuid_text(b, format)
}

/// `Uuid::new_v4` of the uuid crate: a random UUID; the crate sets version 4 and
/// the RFC 4122 variant. Which random bytes come is not stated.
#[verifier::external_body]
fn uuid_v4_bytes() -> (b: [u8; 16])
    ensures
        uuid_shape(b@, 4),
{
    ::uuid::Uuid::new_v4().into_bytes()
}

/// `Uuid::now_v7` of the uuid crate: a UUID from the current time and random bits;
/// the crate sets version 7 and the RFC 4122 variant. The time and bits are not stated.
#[verifier::external_body]
fn uuid_v7_bytes() -> (b: [u8; 16])
    ensures
        uuid_shape(b@, 7),
{
    ::uuid::Uuid::now_v7().into_bytes()
}

/// `Uuid::now_v1` of the uuid crate: a UUID from the current time and the node id;
/// the crate sets version 1 and the RFC 4122 variant and puts the node id in the last
/// six bytes. The time fields are not stated.
#[verifier::external_body]
fn uuid_v1_bytes(node: [u8; 6]) -> (b: [u8; 16])
    ensures
        uuid_shape(b@, 1),
        b@.subrange(10, 16) == node@,
{
    ::uuid::Uuid::now_v1(&node).into_bytes()
}

/// `Rng::fill` of the rand crate on the thread-local generator: six random bytes.
#[verifier::external_body]
fn random_node_id() -> (node: [u8; 6]) {
    let mut node = [0u8; 6];
    ::rand::thread_rng().fill(&mut node);
    node
}

/// `Uuid::hyphenated().to_string()` of the uuid crate: lower-case hex in groups
/// of 8-4-4-4-12 digits, as the crate documents it.
#[verifier::external_body]
fn hyphenated_string(b: [u8; 16]) -> (s: String)
    ensures
        s@ == hyphenated_text(b@),
{
    ::uuid::Uuid::from_bytes(b).hyphenated().to_string()
}

/// `Uuid::simple().to_string()` of the uuid crate: 32 lower-case hex digits.
#[verifier::external_body]
fn simple_string(b: [u8; 16]) -> (s: String)
    ensures
        s@ == simple_text(b@),
{
    ::uuid::Uuid::from_bytes(b).simple().to_string()
}

/// A fresh UUID of `version`, written in `format`.
pub fn generate_uuid(version: &UuidVersion, format: &UuidFormat) -> (s: String)
    ensures
        is_uuid_text(s@, *version, *format),
{
    let bytes = match version {
        UuidVersion::V1 => {
            let node = random_node_id();
            uuid_v1_bytes(node)
        },
        UuidVersion::V4 => uuid_v4_bytes(),
        UuidVersion::V7 => uuid_v7_bytes(),
    };
    let s = match format {
        UuidFormat::Standard => hyphenated_string(bytes),
        UuidFormat::Compact => simple_string(bytes),
        UuidFormat::Upper => {
            let h = hyphenated_string(bytes);
            to_ascii_uppercase(h.as_str())
        },
    };
    assert(uuid_shape(bytes@, version_number(*version)) && s@ == uuid_text(bytes@, *format));
    s
}

/// The match id of a UUID query: `uuid:<version>:<format>`.
pub open spec fn uuid_match_id(q: UuidQuery) -> Seq<char> {
    "uuid:"@ + version_name(q.version) + ":"@ + format_name(q.format)
}

/// The match title of a UUID query: `UUID <version> (<format description>)`.
pub open spec fn uuid_match_title(q: UuidQuery) -> Seq<char> {
    "UUID "@ + version_name(q.version) + " ("@ + format_suffix(q.format) + ")"@
}

/// Whether `r` is the single match of the UUID query `q`, with a UUID of its version
/// and format as subtext.
pub open spec fn uuid_matches_ok(r: Seq<KMatch>, q: UuidQuery) -> bool {
    &&& r.len() == 1
    &&& r[0].id@ == uuid_match_id(q)
    &&& r[0].text@ == uuid_match_title(q)
    &&& r[0].icon@ == "code-class"@
    &&& r[0].category_relevance == CATEGORY_RELEVANCE
    &&& r[0].relevance == Relevance::High
    &&& r[0].category@ == CATEGORY@
    &&& is_uuid_text(r[0].subtext@, q.version, q.format)
}

/// The single match of a UUID query; its subtext is a fresh UUID.
pub fn build_uuid_matches(query: &UuidQuery) -> (r: Vec<KMatch>)
    ensures
        uuid_matches_ok(r@, *query),
{
    let value = generate_uuid(&query.version, &query.format);
    let mut id = String::from_str("uuid:");
    id.append(query.version.as_str());
    id.append(":");
    id.append(query.format.as_str());
    let mut title = String::from_str("UUID ");
    title.append(query.version.label());
    title.append(" (");
    title.append(query.format.suffix(&query.version));
    title.append(")");
    let m = new_match(id, title, "code-class", Relevance::High, value);
    let mut r: Vec<KMatch> = Vec::new();
    r.push(m);
    r
}

/// The value that the id suffix `<version>:<format>` copies: a fresh UUID.
pub open spec fn uuid_id_parts(suffix: Seq<char>) -> Option<(UuidVersion, UuidFormat)> {
    match rsplit_once_spec(suffix, ':') {
        None => None,
        Some((v, f)) => {
            let version = if v == "v1"@ {
                Some(UuidVersion::V1)
            } else if v == "v4"@ {
                Some(UuidVersion::V4)
            } else if v == "v7"@ {
                Some(UuidVersion::V7)
            } else {
                None
            };
            let format = if f == "standard"@ {
                Some(UuidFormat::Standard)
            } else if f == "compact"@ {
                Some(UuidFormat::Compact)
            } else if f == "upper"@ {
                Some(UuidFormat::Upper)
            } else {
                None
            };
            match (version, format) {
                (Some(a), Some(b)) => Some((a, b)),
                _ => None,
            }
        },
    }
}

/// A fresh UUID for the id suffix `<version>:<format>`; `None` when the suffix
/// names no version and format.
pub fn value_for_uuid_id(suffix: &str) -> (r: Option<String>)
    ensures
        match uuid_id_parts(suffix@) {
            None => r is None,
            Some((v, f)) => r is Some && is_uuid_text(r->0@, v, f),
        },
{
    let (version_str, format_str) = match rsplit_once(suffix, ':') {
        Some(p) => p,
        None => return None,
    };
    let version = match UuidVersion::from_str(version_str) {
        Some(v) => v,
        None => return None,
    };
    let format = match UuidFormat::from_str(format_str) {
        Some(f) => f,
        None => return None,
    };
    Some(generate_uuid(&version, &format))
}

/// The id of a UUID match names its query again: the part after `uuid:` gives back
/// the version and the format, so running the match yields a fresh UUID of both.
pub proof fn lemma_uuid_id_roundtrip(q: UuidQuery)
    ensures
        uuid_match_id(q) == "uuid:"@ + (version_name(q.version) + ":"@ + format_name(q.format)),
        uuid_id_parts(version_name(q.version) + ":"@ + format_name(q.format)) == Some((q.version, q.format)),
{
    reveal_strlit(":");
    reveal_strlit("v1");
    reveal_strlit("v4");
    reveal_strlit("v7");
    reveal_strlit("standard");
    reveal_strlit("compact");
    reveal_strlit("upper");
    let v = version_name(q.version);
    let f = format_name(q.format);
    assert(!f.contains(':')) by {
        assert forall|j: int| 0 <= j < f.len() implies f[j] != ':' by {}
    }
    assert(v + ":"@ + f =~= v + seq![':'] + f);
    lemma_rsplit_once_at(v, f, ':');
    assert("v1"@[1] != "v4"@[1] && "v1"@[1] != "v7"@[1] && "v4"@[1] != "v7"@[1]);
    assert("standard"@.len() == 8 && "compact"@.len() == 7 && "upper"@.len() == 5);
    assert(uuid_match_id(q) =~= "uuid:"@ + (v + ":"@ + f));
}

/// Only the ids of UUID matches give a value: an id suffix that names a version and
/// a format is exactly `<version>:<format>` for them.
pub proof fn lemma_uuid_id_parts_exact(suffix: Seq<char>)
    ensures
        uuid_id_parts(suffix) matches Some((v, f)) ==> suffix == version_name(v) + ":"@ + format_name(f),
{
    reveal_strlit(":");
    crate::text::lemma_rsplit_once_parts(suffix, ':');
    if let Some((v, f)) = uuid_id_parts(suffix) {
        let (a, b) = rsplit_once_spec(suffix, ':')->0;
        assert(version_name(v) == a);
        assert(format_name(f) == b);
        assert(":"@ =~= seq![':']);
    }
}

} // verus!
