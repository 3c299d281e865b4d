//! The rules of the worker's media helpers (Tesseract OCR, ZBar barcodes): which
//! requests are taken, how images arrive, which languages may be asked for, and how
//! the helpers' output is read.

use vstd::prelude::*;
use ::base64::Engine;
use crate::text::{lines, lines_of, same_text, sort_texts, split_all, split_on, split_once, split_once_spec,
    string_views, texts_sorted, trim, trim_spec, views};

verus! {

broadcast use vstd::string::group_string_axioms;

/// Largest decoded image, in bytes.
pub const MAX_IMAGE_BYTES: usize = 10 * 1024 * 1024;

/// Largest base64 text of an image, in bytes.
pub const MAX_ENCODED_IMAGE_BYTES: usize = (MAX_IMAGE_BYTES * 4 / 3) + 4;

/// Largest output read from a helper, in bytes.
pub const MAX_OUTPUT_BYTES: usize = 8 * 1024 * 1024;

/// What the OCR helper offers.
#[derive(Debug, Clone)]
pub struct OcrCapability {
    pub available: bool,
    pub version: Option<String>,
    pub languages: Vec<String>,
}

/// What the barcode helper offers.
#[derive(Debug, Clone)]
pub struct BarcodeCapability {
    pub available: bool,
    pub version: Option<String>,
}

/// What the media helpers offer.
#[derive(Debug, Clone)]
pub struct MediaCapabilities {
    pub ocr: OcrCapability,
    pub barcode: BarcodeCapability,
}

/// What a media request asks for.
#[derive(Debug, Clone, Copy, PartialEq, Eq, Structural)]
pub enum MediaOperation {
    Ocr,
    Barcode,
}

/// The image types that the media helpers take.
pub open spec fn allowed_mime(m: Seq<char>) -> bool {
    ||| m == "image/png"@
    ||| m == "image/jpeg"@
    ||| m == "image/bmp"@
    ||| m == "image/tiff"@
    ||| m == "image/webp"@
    ||| m == "image/gif"@
}

/// Whether the media helpers take images of type `mime_type`.
pub fn is_allowed_mime(mime_type: &str) -> (r: bool)
    ensures
        r == allowed_mime(mime_type@),
{
    same_text(mime_type, "image/png") || same_text(mime_type, "image/jpeg") || same_text(mime_type, "image/bmp")
        || same_text(mime_type, "image/tiff") || same_text(mime_type, "image/webp") || same_text(
        mime_type,
        "image/gif",
    )
}

/// Checks a media request before it is queued: the request id must hold more than
/// whitespace, the image type must be taken, and the base64 text must be within
/// `MAX_ENCODED_IMAGE_BYTES`, in that order.
pub fn check_media_request(request_id: &str, image_base64: &str, mime_type: &str) -> (r: Result<(), String>)
    ensures
        if trim_spec(request_id@).len() == 0 {
            r matches Err(e) && e@ == "media processing request id is empty"@
        } else if !allowed_mime(mime_type@) {
            r matches Err(e) && e@ == "unsupported image type: "@ + mime_type@
        } else if crate::text::str_len(image_base64@) > MAX_ENCODED_IMAGE_BYTES {
            r matches Err(e) && e@ == "encoded image is too large (maximum 10485760 decoded bytes)"@
        } else {
            r is Ok
        },
{
    if trim(request_id).is_empty() {
        return Err(String::from_str("media processing request id is empty"));
    }
    if !is_allowed_mime(mime_type) {
        let mut e = String::from_str("unsupported image type: ");
        e.append(mime_type);
        return Err(e);
    }
    if image_base64.len() > MAX_ENCODED_IMAGE_BYTES {
        return Err(String::from_str("encoded image is too large (maximum 10485760 decoded bytes)"));
    }
    Ok(())
}

/// The bytes that the standard base64 alphabet (with padding) decodes `text` to, as
/// the base64 crate's `STANDARD` engine reads it; `None` where it refuses the text.
pub uninterp spec fn base64_decoded(text: Seq<char>) -> Option<Seq<u8>>;

/// `base64::engine::general_purpose::STANDARD.decode(text)`: the decoded bytes, or the
/// crate's error message. Which texts decode, and to what, is named, not written out.
#[verifier::external_body]
pub(crate) fn decode_base64(text: &str) -> (r: Result<Vec<u8>, String>)
    ensures
        match r {
            Ok(b) => base64_decoded(text@) == Some(b@),
            Err(_) => base64_decoded(text@) is None,
        },
{
    match base64::engine::general_purpose::STANDARD.decode(text) {
        Ok(b) => Ok(b),
        Err(e) => Err(e.to_string()),
    }
}

/// Decodes a base64 image: refused when the text is not base64, when the image is
/// empty, or when it is over `MAX_IMAGE_BYTES`.
pub fn decode_image(encoded: &str) -> (r: Result<Vec<u8>, String>)
    ensures
        match base64_decoded(encoded@) {
            None => r matches Err(e) && "invalid base64 image: "@.is_prefix_of(e@),
            Some(b) => if b.len() == 0 {
                r matches Err(e) && e@ == "image is empty"@
            } else if b.len() > MAX_IMAGE_BYTES {
                r matches Err(e) && "image is too large: "@.is_prefix_of(e@)
            } else {
                r matches Ok(v) && v@ == b
            },
        },
{
    let bytes = match decode_base64(encoded) {
        Ok(b) => b,
        Err(e) => {
            let mut m = String::from_str("invalid base64 image: ");
            m.append(e.as_str());
            return Err(m);
        },
    };
    if bytes.len() == 0 {
        return Err(String::from_str("image is empty"));
    }
    if bytes.len() > MAX_IMAGE_BYTES {
        let mut m = String::from_str("image is too large: ");
        let n = crate::text::u64_to_string(bytes.len() as u64);
        m.append(n.as_str());
        m.append(" bytes (maximum 10485760)");
        return Err(m);
    }
    Ok(bytes)
}

/// Whether the language selection `language` (languages joined by `+`) names only
/// languages that are installed: each part must be one of `available`.
pub open spec fn languages_ok(language: Seq<char>, available: Seq<Seq<char>>) -> bool {
    forall|k: int|
        0 <= k < split_on(language, '+').len() ==> (#[trigger] split_on(language, '+')[k]).len() > 0
            && available.contains(split_on(language, '+')[k])
}

fn contains_language(available: &[String], item: &str) -> (r: bool)
    ensures
        r == string_views(available@).contains(item@),
{
    let mut i: usize = 0;
    while i < available.len()
        invariant
            i <= available@.len(),
            forall|j: int| 0 <= j < i ==> available@[j]@ != item@,
        decreases available@.len() - i,
    {
        if same_text(available[i].as_str(), item) {
            assert(string_views(available@)[i as int] == item@);
            return true;
        }
        i = i + 1;
    }
    assert forall|j: int| 0 <= j < string_views(available@).len() implies string_views(available@)[j]
        != item@ by {
        assert(string_views(available@)[j] == available@[j]@);
    }
    false
}

/// Checks an OCR language selection such as `eng+chi_sim` against the installed
/// languages; an empty part or an unknown language refuses the whole selection.
pub fn validate_languages(language: &str, available_languages: &[String]) -> (r: Result<(), String>)
    ensures
        r is Ok <==> languages_ok(language@, string_views(available_languages@)),
        r matches Err(e) ==> e@ == "unsupported Tesseract language selection: "@ + language@,
{
    let requested = split_all(language, '+');
    let ghost parts = split_on(language@, '+');
    let mut k: usize = 0;
    while k < requested.len()
        invariant
            k <= requested@.len(),
            views(requested@) == parts,
            parts == split_on(language@, '+'),
            forall|j: int|
                0 <= j < k ==> (#[trigger] parts[j]).len() > 0 && string_views(available_languages@).contains(
                    parts[j],
                ),
        decreases requested@.len() - k,
    {
        let item = requested[k];
        assert(item@ == parts[k as int]);
        if item.is_empty() || !contains_language(available_languages, item) {
            let mut e = String::from_str("unsupported Tesseract language selection: ");
            e.append(language);
            return Err(e);
        }
        k = k + 1;
    }
    Ok(())
}

/// A code that ZBar read: its symbology and its data.
#[derive(Debug, Clone, PartialEq, Eq)]
pub struct DetectedCode {
    pub code_type: String,
    pub data: String,
}

/// The codes that ZBar read from one image.
#[derive(Debug, Clone, PartialEq, Eq)]
pub struct BarcodeResult {
    pub codes: Vec<DetectedCode>,
}

/// The code that one line of ZBar output reports (`<type>:<data>`, the type trimmed),
/// if it has a colon and both parts are not empty.
pub open spec fn zbar_line_code(line: Seq<char>) -> Option<(Seq<char>, Seq<char>)> {
    match split_once_spec(line, ':') {
        None => None,
        Some((t, d)) => if trim_spec(t).len() > 0 && d.len() > 0 {
            Some((trim_spec(t), d))
        } else {
            None
        },
    }
}

/// The codes of the first `n` lines, each (type, data) pair once, in the order they
/// first appear.
pub open spec fn zbar_codes(ls: Seq<Seq<char>>, n: nat) -> Seq<(Seq<char>, Seq<char>)>
    decreases n,
{
    if n == 0 {
        seq![]
    } else {
        let prev = zbar_codes(ls, (n - 1) as nat);
        match zbar_line_code(ls[n - 1]) {
            Some(code) => if prev.contains(code) {
                prev
            } else {
                prev.push(code)
            },
            None => prev,
        }
    }
}

/// What the reading of ZBar's output keeps, over its first `n` lines: the code of every
/// line is among the results; every result is the code of some line; and no (type,
/// data) pair is reported twice. Two codes of one type with different data are thus
/// both kept; only a repeat of the same pair is left out.
pub proof fn lemma_zbar_codes_complete(ls: Seq<Seq<char>>, n: nat)
    requires
        n <= ls.len(),
    ensures
        forall|j: int| 0 <= j < n && (#[trigger] zbar_line_code(ls[j])) is Some ==> zbar_codes(ls, n).contains(
            zbar_line_code(ls[j])->0,
        ),
        forall|k: int| #![trigger zbar_codes(ls, n)[k]] 0 <= k < zbar_codes(ls, n).len() ==> exists|j: int| 0 <= j < n && #[trigger] zbar_line_code(ls[j])
            == Some(zbar_codes(ls, n)[k]),
        forall|a: int, b: int| 0 <= a < b < zbar_codes(ls, n).len() ==> zbar_codes(ls, n)[a] != zbar_codes(ls, n)[b],
    decreases n,
{
    if n > 0 {
        lemma_zbar_codes_complete(ls, (n - 1) as nat);
        let prev = zbar_codes(ls, (n - 1) as nat);
        let cur = zbar_codes(ls, n);
        match zbar_line_code(ls[n - 1]) {
            Some(code) => {
                if !prev.contains(code) {
                    assert forall|j: int| 0 <= j < n && (#[trigger] zbar_line_code(ls[j])) is Some implies cur.contains(
                        zbar_line_code(ls[j])->0,
                    ) by {
                        if j < n - 1 {
                            let i = choose|i: int| 0 <= i < prev.len() && prev[i] == zbar_line_code(ls[j])->0;
                            assert(cur[i] == prev[i]);
                        } else {
                            assert(cur[prev.len() as int] == code);
                        }
                    }
                    assert forall|k: int| #![trigger cur[k]] 0 <= k < cur.len() implies exists|j: int| 0 <= j < n
                        && #[trigger] zbar_line_code(ls[j]) == Some(cur[k]) by {
                        if k < prev.len() {
                            assert(cur[k] == prev[k]);
                            let j = choose|j: int| 0 <= j < n - 1 && #[trigger] zbar_line_code(ls[j]) == Some(prev[k]);
                            assert(zbar_line_code(ls[j]) == Some(cur[k]));
                        } else {
                            assert(zbar_line_code(ls[n - 1]) == Some(cur[k]));
                        }
                    }
                    assert forall|a: int, b: int| 0 <= a < b < cur.len() implies cur[a] != cur[b] by {
                        if b == prev.len() {
                            assert(cur[a] == prev[a]);
                        } else {
                            assert(cur[a] == prev[a] && cur[b] == prev[b]);
                        }
                    }
                } else {
                    assert forall|j: int| 0 <= j < n && (#[trigger] zbar_line_code(ls[j])) is Some implies cur.contains(
                        zbar_line_code(ls[j])->0,
                    ) by {
                        if j < n - 1 {
                        }
                    }
                    assert forall|k: int| #![trigger cur[k]] 0 <= k < cur.len() implies exists|j: int| 0 <= j < n
                        && #[trigger] zbar_line_code(ls[j]) == Some(cur[k]) by {
                        let j = choose|j: int| 0 <= j < n - 1 && #[trigger] zbar_line_code(ls[j]) == Some(prev[k]);
                        assert(zbar_line_code(ls[j]) == Some(cur[k]));
                    }
                }
            },
            None => {
                assert forall|k: int| #![trigger cur[k]] 0 <= k < cur.len() implies exists|j: int| 0 <= j < n
                    && #[trigger] zbar_line_code(ls[j]) == Some(cur[k]) by {
                    let j = choose|j: int| 0 <= j < n - 1 && #[trigger] zbar_line_code(ls[j]) == Some(prev[k]);
                    assert(zbar_line_code(ls[j]) == Some(cur[k]));
                }
            },
        }
    }
}

/// Whether some line among the first `n` reports `c` before every line among them that
/// reports `d`.
pub open spec fn reported_before(ls: Seq<Seq<char>>, n: nat, c: (Seq<char>, Seq<char>), d: (Seq<char>, Seq<char>)) -> bool {
    exists|ja: int| #![trigger zbar_line_code(ls[ja])] 0 <= ja < n && zbar_line_code(ls[ja]) == Some(c) && forall|jb: int|
        #![trigger zbar_line_code(ls[jb])] 0 <= jb < n && zbar_line_code(ls[jb]) == Some(d) ==> ja < jb
}

/// The codes come in the order in which they are first reported: of two results, the
/// earlier one is reported by a line before every line that reports the later one.
pub proof fn lemma_zbar_codes_in_report_order(ls: Seq<Seq<char>>, n: nat)
    requires
        n <= ls.len(),
    ensures
        forall|a: int, b: int| 0 <= a < b < zbar_codes(ls, n).len() ==> reported_before(
            ls,
            n,
            #[trigger] zbar_codes(ls, n)[a],
            #[trigger] zbar_codes(ls, n)[b],
        ),
    decreases n,
{
    if n > 0 {
        let m = (n - 1) as nat;
        lemma_zbar_codes_in_report_order(ls, m);
        lemma_zbar_codes_complete(ls, m);
        let prev = zbar_codes(ls, m);
        let cur = zbar_codes(ls, n);
        assert forall|a: int, b: int| 0 <= a < b < cur.len() implies reported_before(ls, n, #[trigger] cur[a], #[trigger] cur[b]) by {
            let code = zbar_line_code(ls[n - 1]);
            if b < prev.len() {
                assert(cur[a] == prev[a] && cur[b] == prev[b]);
                assert(reported_before(ls, m, prev[a], prev[b]));
                let ja = choose|ja: int| 0 <= ja < m && zbar_line_code(ls[ja]) == Some(prev[a]) && forall|jb: int|
                    #![trigger zbar_line_code(ls[jb])] 0 <= jb < m && zbar_line_code(ls[jb]) == Some(prev[b]) ==> ja < jb;
                assert forall|jb: int| 0 <= jb < n && #[trigger] zbar_line_code(ls[jb]) == Some(cur[b]) implies ja < jb by {
                    if jb == n - 1 {
                        assert(prev.contains(prev[b]));
                    }
                }
            } else {
                assert(code is Some && !prev.contains(code->0) && cur[b] == code->0);
                assert(cur[a] == prev[a]);
                let ja = choose|ja: int| 0 <= ja < m && #[trigger] zbar_line_code(ls[ja]) == Some(prev[a]);
                assert forall|jb: int| 0 <= jb < n && #[trigger] zbar_line_code(ls[jb]) == Some(cur[b]) implies ja < jb by {
                    if jb < n - 1 {
                        assert(prev.contains(zbar_line_code(ls[jb])->0));
                    }
                }
            }
        }
    }
}

/// The (type, data) views of detected codes.
pub open spec fn code_views(v: Seq<DetectedCode>) -> Seq<(Seq<char>, Seq<char>)> {
    v.map_values(|c: DetectedCode| (c.code_type@, c.data@))
}

/// `std::str::from_utf8`: the text of `bytes` where they are valid UTF-8, else the
/// error's message (not stated).
#[verifier::external_body]
pub(crate) fn utf8_text(bytes: &[u8]) -> (r: Result<&str, String>)
    ensures
        match r {
            Ok(s) => vstd::utf8::valid_utf8(bytes@) && s@ == vstd::utf8::decode_utf8(bytes@),
            Err(_) => !vstd::utf8::valid_utf8(bytes@),
        },
{
    match std::str::from_utf8(bytes) {
        Ok(s) => Ok(s),
        Err(e) => Err(e.to_string()),
    }
}

fn contains_code(codes: &Vec<DetectedCode>, t: &str, d: &str) -> (r: bool)
    ensures
        r == code_views(codes@).contains((t@, d@)),
{
    let mut i: usize = 0;
    while i < codes.len()
        invariant
            i <= codes@.len(),
            forall|j: int| 0 <= j < i ==> (codes@[j].code_type@, codes@[j].data@) != (t@, d@),
        decreases codes@.len() - i,
    {
        if same_text(codes[i].code_type.as_str(), t) && same_text(codes[i].data.as_str(), d) {
            assert(code_views(codes@)[i as int] == (t@, d@));
            return true;
        }
        i = i + 1;
    }
    assert forall|j: int| 0 <= j < code_views(codes@).len() implies code_views(codes@)[j] != (t@, d@) by {
        assert(code_views(codes@)[j] == (codes@[j].code_type@, codes@[j].data@));
    }
    false
}

/// Reads ZBar's output (`<type>:<data>` per line): each line's code, the type trimmed
/// and split at the first colon, lines without a colon or with an empty part skipped,
/// each (type, data) pair once in the order of first appearance. Output that is not
/// UTF-8 is refused.
pub fn parse_zbar_output(output: &[u8]) -> (r: Result<BarcodeResult, String>)
    ensures
        !vstd::utf8::valid_utf8(output@) ==> (r matches Err(e) && "ZBar returned invalid UTF-8: "@.is_prefix_of(e@)),
        vstd::utf8::valid_utf8(output@) ==> ({
            let ls = lines_of(vstd::utf8::decode_utf8(output@));
            &&& r matches Ok(res) && code_views(res.codes@) == zbar_codes(ls, ls.len())
            &&& r matches Ok(res) ==> forall|j: int| 0 <= j < ls.len() && (#[trigger] zbar_line_code(ls[j])) is Some
                ==> code_views(res.codes@).contains(zbar_line_code(ls[j])->0)
        }),
{
    let text = match utf8_text(output) {
        Ok(t) => t,
        Err(e) => {
            let mut m = String::from_str("ZBar returned invalid UTF-8: ");
            m.append(e.as_str());
            return Err(m);
        },
    };
    let ls = lines(text);
    let ghost lv = lines_of(text@);
    let mut codes: Vec<DetectedCode> = Vec::new();
    let mut i: usize = 0;
    while i < ls.len()
        invariant
            i <= ls@.len(),
            views(ls@) == lv,
            code_views(codes@) == zbar_codes(lv, i as nat),
        decreases ls@.len() - i,
    {
        let line = ls[i];
        assert(line@ == lv[i as int]);
        let ghost before = code_views(codes@);
        if let Some((t, d)) = split_once(line, ':') {
            let t2 = trim(t);
            if !t2.is_empty() && !d.is_empty() && !contains_code(&codes, t2, d) {
                codes.push(DetectedCode { code_type: String::from_str(t2), data: String::from_str(d) });
                assert(code_views(codes@) =~= before.push((t2@, d@)));
            }
        }
        i = i + 1;
    }
    proof {
        lemma_zbar_codes_complete(lv, lv.len());
    }
    Ok(BarcodeResult { codes })
}

/// The version line of a helper's `--version` output: its first line, trimmed, where
/// that is not empty.
pub open spec fn version_line_of(text: Seq<char>) -> Option<Seq<char>> {
    let ls = lines_of(text);
    if ls.len() == 0 || trim_spec(ls[0]).len() == 0 {
        None
    } else {
        Some(trim_spec(ls[0]))
    }
}

/// The version that a helper printed (its standard output, or its error output where
/// the standard output was empty).
pub fn version_line(text: &str) -> (r: Option<String>)
    ensures
        match version_line_of(text@) {
            Some(v) => r matches Some(s) && s@ == v,
            None => r is None,
        },
{
    let ls = lines(text);
    if ls.len() == 0 {
        return None;
    }
    let first = trim(ls[0]);
    if first.is_empty() {
        None
    } else {
        Some(String::from_str(first))
    }
}

/// The languages listed after the heading line of `tesseract --list-langs`: each line
/// trimmed, empty lines skipped, in the order they come.
pub open spec fn listed_languages(ls: Seq<Seq<char>>, n: nat) -> Seq<Seq<char>>
    decreases n,
{
    if n <= 1 {
        seq![]
    } else {
        let prev = listed_languages(ls, (n - 1) as nat);
        if trim_spec(ls[n - 1]).len() > 0 {
            prev.push(trim_spec(ls[n - 1]))
        } else {
            prev
        }
    }
}

/// The installed OCR languages that `tesseract --list-langs` printed, sorted: the
/// lines after the heading, trimmed, empty ones skipped.
pub fn tesseract_languages(text: &str) -> (r: Vec<String>)
    ensures
        texts_sorted(string_views(r@)),
        string_views(r@).to_multiset() == listed_languages(lines_of(text@), lines_of(text@).len()).to_multiset(),
{
    let ls = lines(text);
    let ghost lv = lines_of(text@);
    let mut found: Vec<String> = Vec::new();
    let mut i: usize = 1;
    assert(string_views(found@) =~= listed_languages(lv, 0));
    if ls.len() == 0 {
        return sort_texts(found);
    }
    assert(string_views(found@) =~= listed_languages(lv, 1));
    while i < ls.len()
        invariant
            1 <= i <= ls@.len(),
            views(ls@) == lv,
            string_views(found@) == listed_languages(lv, i as nat),
        decreases ls@.len() - i,
    {
        let line = trim(ls[i]);
        assert(ls@[i as int]@ == lv[i as int]);
        let ghost before = string_views(found@);
        if !line.is_empty() {
            found.push(String::from_str(line));
            assert(string_views(found@) =~= before.push(line@));
        }
        i = i + 1;
    }
    sort_texts(found)
}

/// The media capabilities for what was found: OCR is there where Tesseract printed a
/// version and lists a language; barcodes where ZBar printed a version.
pub fn capabilities_from(
    tesseract_version: Option<String>,
    languages: Vec<String>,
    zbar_version: Option<String>,
) -> (r: MediaCapabilities)
    ensures
        r.ocr.available == (tesseract_version is Some && languages@.len() > 0),
        r.ocr.version == tesseract_version,
        r.ocr.languages@ == languages@,
        r.barcode.available == zbar_version is Some,
        r.barcode.version == zbar_version,
{
    let ocr_available = tesseract_version.is_some() && languages.len() > 0;
    let barcode_available = zbar_version.is_some();
    MediaCapabilities {
        ocr: OcrCapability { available: ocr_available, version: tesseract_version, languages },
        barcode: BarcodeCapability { available: barcode_available, version: zbar_version },
    }
}

/// Checks that the helper for `operation` is available: Tesseract for OCR, ZBar for
/// barcodes.
pub fn check_operation_available(operation: MediaOperation, capabilities: &MediaCapabilities) -> (r: Result<
    (),
    String,
>)
    ensures
        match operation {
            MediaOperation::Ocr => if capabilities.ocr.available {
                r is Ok
            } else {
                r matches Err(e) && e@ == "Tesseract OCR is not available"@
            },
            MediaOperation::Barcode => if capabilities.barcode.available {
                r is Ok
            } else {
                r matches Err(e) && e@ == "ZBar barcode reader is not available"@
            },
        },
{
    match operation {
        MediaOperation::Ocr => if capabilities.ocr.available {
            Ok(())
        } else {
            Err(String::from_str("Tesseract OCR is not available"))
        },
        MediaOperation::Barcode => if capabilities.barcode.available {
            Ok(())
        } else {
            Err(String::from_str("ZBar barcode reader is not available"))
        },
    }
}

} // verus!
