//! The parts of OCR that do not weigh confidences: the language selection and page
//! segmentation mode of a request, the word rows of Tesseract's TSV output, the box
//! and line of each word, and the text that the words make, line by line.

use vstd::prelude::*;
use crate::text::{dec, lines, lines_of, parse_u64_spec, same_text, splitn, splitn_spec, string_views, trim,
    trim_spec, u64_to_string, views};
use crate::worker::media::{languages_ok, utf8_text, validate_languages};

verus! {

broadcast use vstd::string::group_string_axioms;

/// The page segmentation modes that OCR takes.
pub open spec fn page_mode_allowed(m: u8) -> bool {
    m == 3 || m == 4 || m == 6 || m == 11 || m == 12 || m == 13
}

/// The view of an optional text.
pub open spec fn opt_view(s: Option<&str>) -> Option<Seq<char>> {
    match s {
        Some(t) => Some(t@),
        None => None,
    }
}

/// The language selection and page segmentation mode of an OCR request: the language
/// defaults to `eng` and must name installed languages only, the mode defaults to 3
/// and must be 3, 4, 6, 11, 12 or 13; the language is checked first.
pub open spec fn ocr_parameters_spec(language: Option<Seq<char>>, mode: Option<u8>, available: Seq<Seq<char>>)
    -> Result<(Seq<char>, u8), Seq<char>>
{
    let l = match language {
        Some(l) => l,
        None => "eng"@,
    };
    let m = match mode {
        Some(m) => m,
        None => 3u8,
    };
    if !languages_ok(l, available) {
        Err("unsupported Tesseract language selection: "@ + l)
    } else if !page_mode_allowed(m) {
        Err("unsupported Tesseract page segmentation mode: "@ + dec(m as nat))
    } else {
        Ok((l, m))
    }
}

/// The Tesseract language selection and page segmentation mode of an OCR request.
pub fn ocr_parameters(language: Option<&str>, page_segmentation_mode: Option<u8>, available_languages: &[String])
    -> (r: Result<(String, u8), String>)
    ensures
        match ocr_parameters_spec(opt_view(language), page_segmentation_mode, string_views(available_languages@)) {
            Ok((l, m)) => r matches Ok((s, n)) && s@ == l && n == m,
            Err(e) => r matches Err(x) && x@ == e,
        },
{
    let l: &str = match language {
        Some(l) => l,
        None => "eng",
    };
    let m: u8 = match page_segmentation_mode {
        Some(m) => m,
        None => 3,
    };
    match validate_languages(l, available_languages) {
        Ok(()) => {},
        Err(e) => return Err(e),
    }
    if !(m == 3 || m == 4 || m == 6 || m == 11 || m == 12 || m == 13) {
        let mut e = String::from_str("unsupported Tesseract page segmentation mode: ");
        let digits = u64_to_string(m as u64);
        e.append(digits.as_str());
        return Err(e);
    }
    Ok((String::from_str(l), m))
}

/// One word row of Tesseract's TSV output: the word's text, trimmed, and the row's
/// twelve columns as they are.
#[derive(Debug, Clone, PartialEq, Eq)]
pub struct TsvRow {
    pub text: String,
    pub columns: Vec<String>,
}

/// The word row of one TSV line, if it is one: twelve tab-separated columns (the last
/// holding the rest of the line), the level column `5`, and a text column that is not
/// blank.
pub open spec fn tsv_row(line: Seq<char>) -> Option<(Seq<char>, Seq<Seq<char>>)> {
    let cols = splitn_spec(line, '\t', 12);
    if cols.len() == 12 && cols[0] == "5"@ && trim_spec(cols[11]).len() > 0 {
        Some((trim_spec(cols[11]), cols))
    } else {
        None
    }
}

/// The word rows of the first `n` lines, the header line (the first) left out.
pub open spec fn tsv_rows(ls: Seq<Seq<char>>, n: nat) -> Seq<(Seq<char>, Seq<Seq<char>>)>
    decreases n,
{
    if n <= 1 {
        seq![]
    } else {
        let prev = tsv_rows(ls, (n - 1) as nat);
        match tsv_row(ls[n - 1]) {
            Some(row) => prev.push(row),
            None => prev,
        }
    }
}

/// A row as plain text.
pub open spec fn row_view(r: TsvRow) -> (Seq<char>, Seq<Seq<char>>) {
    (r.text@, string_views(r.columns@))
}

/// Rows as plain text.
pub open spec fn rows_view(v: Seq<TsvRow>) -> Seq<(Seq<char>, Seq<Seq<char>>)> {
    v.map_values(|r: TsvRow| row_view(r))
}

fn owned_texts(v: &Vec<&str>) -> (r: Vec<String>)
    ensures
        string_views(r@) == views(v@),
{
    let mut out: Vec<String> = Vec::new();
    let mut i: usize = 0;
    while i < v.len()
        invariant
            i <= v@.len(),
            string_views(out@) == views(v@).take(i as int),
        decreases v@.len() - i,
    {
        let ghost before = string_views(out@);
        out.push(String::from_str(v[i]));
        assert(string_views(out@) =~= before.push(v@[i as int]@));
        assert(views(v@).take(i + 1) =~= views(v@).take(i as int).push(v@[i as int]@));
        i = i + 1;
    }
    assert(views(v@).take(i as int) =~= views(v@));
    out
}

/// The word rows of Tesseract's TSV output, in order: every line after the header
/// that `tsv_row` takes. Output that is not UTF-8 is refused.
pub fn tesseract_rows(tsv: &[u8]) -> (r: Result<Vec<TsvRow>, String>)
    ensures
        !vstd::utf8::valid_utf8(tsv@) ==> (r matches Err(e) && "Tesseract returned invalid UTF-8: "@.is_prefix_of(
            e@,
        )),
        vstd::utf8::valid_utf8(tsv@) ==> ({
            let ls = lines_of(vstd::utf8::decode_utf8(tsv@));
            r matches Ok(rows) && rows_view(rows@) == tsv_rows(ls, ls.len())
        }),
{
    let text = match utf8_text(tsv) {
        Ok(t) => t,
        Err(e) => {
            let mut m = String::from_str("Tesseract returned invalid UTF-8: ");
            m.append(e.as_str());
            return Err(m);
        },
    };
    let ls = lines(text);
    let ghost lv = lines_of(text@);
    let mut rows: Vec<TsvRow> = Vec::new();
    let mut i: usize = 1;
    if ls.len() == 0 {
        return Ok(rows);
    }
    while i < ls.len()
        invariant
            1 <= i <= ls@.len(),
            views(ls@) == lv,
            rows_view(rows@) == tsv_rows(lv, i as nat),
        decreases ls@.len() - i,
    {
        let line = ls[i];
        assert(line@ == lv[i as int]);
        let ghost before = rows_view(rows@);
        let cols = splitn(line, '\t', 12);
        if cols.len() == 12 && same_text(cols[0], "5") {
            let word = trim(cols[11]);
            if !word.is_empty() {
                let columns = owned_texts(&cols);
                rows.push(TsvRow { text: String::from_str(word), columns });
                assert(rows_view(rows@) =~= before.push((word@, views(cols@))));
            }
        }
        i = i + 1;
    }
    Ok(rows)
}

/// `str::parse::<u32>`: a `u32` where the text is an optional `+` and one or more
/// ASCII digits whose value fits, as the standard library documents it; otherwise the
/// error's message, which is not stated.
#[verifier::external_body]
fn parse_u32_text(s: &str) -> (r: Result<u32, String>)
    ensures
        match parse_u64_spec(s@) {
            Some(v) => if v <= u32::MAX {
                r == Ok::<u32, String>(v as u32)
            } else {
                r is Err
            },
            None => r is Err,
        },
{
    s.parse::<u32>().map_err(|e| e.to_string())
}

/// The `u32` that a text reads as, if any.
pub open spec fn u32_of(s: Seq<char>) -> Option<u32> {
    match parse_u64_spec(s) {
        Some(v) => if v <= u32::MAX {
            Some(v as u32)
        } else {
            None
        },
        None => None,
    }
}

/// The page, block, paragraph and line that a word belongs to.
#[derive(Debug, Clone, Copy, PartialEq, Eq, Structural)]
pub struct LineKey {
    pub page: u32,
    pub block: u32,
    pub paragraph: u32,
    pub line: u32,
}

/// Where a word stands in the image, and the line it belongs to.
#[derive(Debug, Clone, Copy, PartialEq, Eq, Structural)]
pub struct WordBox {
    pub left: u32,
    pub top: u32,
    pub width: u32,
    pub height: u32,
    pub line_key: LineKey,
}

/// The column that holds each part of a word's box, in the order they are read, and
/// its name.
pub open spec fn box_column(k: int) -> (int, Seq<char>) {
    if k == 0 {
        (6, "left"@)
    } else if k == 1 {
        (7, "top"@)
    } else if k == 2 {
        (8, "width"@)
    } else if k == 3 {
        (9, "height"@)
    } else if k == 4 {
        (1, "page"@)
    } else if k == 5 {
        (2, "block"@)
    } else if k == 6 {
        (3, "paragraph"@)
    } else {
        (4, "line"@)
    }
}

fn column_u32(columns: &Vec<String>, index: usize, name: &str) -> (r: Result<u32, String>)
    requires
        index < columns@.len(),
    ensures
        match u32_of(columns@[index as int]@) {
            Some(v) => r == Ok::<u32, String>(v),
            None => r matches Err(e) && ("invalid Tesseract "@ + name@ + ": "@).is_prefix_of(e@),
        },
{
    match parse_u32_text(columns[index].as_str()) {
        Ok(v) => Ok(v),
        Err(error) => {
            let mut e = String::from_str("invalid Tesseract ");
            e.append(name);
            e.append(": ");
            e.append(error.as_str());
            Err(e)
        },
    }
}

/// The box of a word row: columns 6 to 9 are left, top, width and height, and
/// columns 1 to 4 page, block, paragraph and line, each a `u32`. They are read in
/// that order, and the first that is not a `u32` gives the error
/// `invalid Tesseract <name>: ` and the parser's message.
pub fn word_box(row: &TsvRow) -> (r: Result<WordBox, String>)
    requires
        row.columns@.len() == 12,
    ensures
        (forall|k: int| 0 <= k < 8 ==> u32_of(#[trigger] row.columns@[box_column(k).0]@) is Some) ==> r
            == Ok::<WordBox, String>(
            WordBox {
                left: u32_of(row.columns@[6]@)->0,
                top: u32_of(row.columns@[7]@)->0,
                width: u32_of(row.columns@[8]@)->0,
                height: u32_of(row.columns@[9]@)->0,
                line_key: LineKey {
                    page: u32_of(row.columns@[1]@)->0,
                    block: u32_of(row.columns@[2]@)->0,
                    paragraph: u32_of(row.columns@[3]@)->0,
                    line: u32_of(row.columns@[4]@)->0,
                },
            },
        ),
        forall|k: int|
            0 <= k < 8 && u32_of(#[trigger] row.columns@[box_column(k).0]@) is None && (forall|j: int|
                0 <= j < k ==> u32_of(row.columns@[box_column(j).0]@) is Some) ==> (r matches Err(e) && (
            "invalid Tesseract "@ + box_column(k).1 + ": "@).is_prefix_of(e@)),
{
    proof {
        reveal_strlit("left");
        reveal_strlit("top");
        reveal_strlit("width");
        reveal_strlit("height");
        reveal_strlit("page");
        reveal_strlit("block");
        reveal_strlit("paragraph");
        reveal_strlit("line");
        assert(box_column(0).0 == 6 && box_column(1).0 == 7 && box_column(2).0 == 8 && box_column(3).0 == 9);
        assert(box_column(4).0 == 1 && box_column(5).0 == 2 && box_column(6).0 == 3 && box_column(7).0 == 4);
    }
    let left = column_u32(&row.columns, 6, "left")?;
    let top = column_u32(&row.columns, 7, "top")?;
    let width = column_u32(&row.columns, 8, "width")?;
    let height = column_u32(&row.columns, 9, "height")?;
    let page = column_u32(&row.columns, 1, "page")?;
    let block = column_u32(&row.columns, 2, "block")?;
    let paragraph = column_u32(&row.columns, 3, "paragraph")?;
    let line = column_u32(&row.columns, 4, "line")?;
    Ok(WordBox { left, top, width, height, line_key: LineKey { page, block, paragraph, line } })
}

/// The text lines that words make: a word on the same line (same key) as the word
/// before it is added to that line after a space, any other word starts a new line.
pub open spec fn word_lines(ws: Seq<(Seq<char>, LineKey)>) -> Seq<Seq<char>>
    decreases ws.len(),
{
    if ws.len() == 0 {
        seq![]
    } else {
        let prev = word_lines(ws.drop_last());
        if ws.len() == 1 || ws[ws.len() - 2].1 != ws.last().1 {
            prev.push(ws.last().0)
        } else {
            prev.drop_last().push(prev.last() + seq![' '] + ws.last().0)
        }
    }
}

/// Lines joined with `\n` between them.
pub open spec fn joined_lines(ls: Seq<Seq<char>>) -> Seq<char>
    decreases ls.len(),
{
    if ls.len() == 0 {
        seq![]
    } else if ls.len() == 1 {
        ls[0]
    } else {
        joined_lines(ls.drop_last()) + seq!['\n'] + ls.last()
    }
}

/// Words as plain text and line keys.
pub open spec fn words_view(v: Seq<(String, LineKey)>) -> Seq<(Seq<char>, LineKey)> {
    v.map_values(|w: (String, LineKey)| (w.0@, w.1))
}

proof fn lemma_word_lines_nonempty(ws: Seq<(Seq<char>, LineKey)>)
    requires
        ws.len() > 0,
    ensures
        word_lines(ws).len() > 0,
    decreases ws.len(),
{
    if ws.len() > 1 {
        lemma_word_lines_nonempty(ws.drop_last());
    }
}

/// How many of the words after the first start a new line: those whose (page, block,
/// paragraph, line) key differs in any field from the word before.
pub open spec fn key_changes(ws: Seq<(Seq<char>, LineKey)>) -> nat
    decreases ws.len(),
{
    if ws.len() <= 1 {
        0
    } else {
        key_changes(ws.drop_last()) + if ws[ws.len() - 2].1 == ws.last().1 {
            0nat
        } else {
            1nat
        }
    }
}

/// How many `\n` characters `s` holds.
pub open spec fn newline_count(s: Seq<char>) -> nat
    decreases s.len(),
{
    if s.len() == 0 {
        0
    } else {
        newline_count(s.drop_last()) + if s.last() == '\n' {
            1nat
        } else {
            0nat
        }
    }
}

proof fn lemma_newline_count_concat(a: Seq<char>, b: Seq<char>)
    ensures
        newline_count(a + b) == newline_count(a) + newline_count(b),
    decreases b.len(),
{
    if b.len() > 0 {
        assert((a + b).drop_last() =~= a + b.drop_last());
        lemma_newline_count_concat(a, b.drop_last());
    } else {
        assert(a + b =~= a);
    }
}

/// Whether no word of `ws` holds a `\n`.
pub open spec fn words_without_newline(ws: Seq<(Seq<char>, LineKey)>) -> bool {
    forall|i: int| 0 <= i < ws.len() ==> newline_count(#[trigger] ws[i].0) == 0
}

proof fn lemma_word_lines_shape(ws: Seq<(Seq<char>, LineKey)>)
    requires
        ws.len() > 0,
        words_without_newline(ws),
    ensures
        word_lines(ws).len() == key_changes(ws) + 1,
        forall|k: int| 0 <= k < word_lines(ws).len() ==> newline_count(#[trigger] word_lines(ws)[k]) == 0,
    decreases ws.len(),
{
    let prev_ws = ws.drop_last();
    assert(ws.last() == ws[ws.len() - 1]);
    if ws.len() == 1 {
        assert(word_lines(prev_ws) =~= Seq::<Seq<char>>::empty());
        assert(word_lines(ws)[0] == ws[0].0);
    } else {
        assert forall|i: int| 0 <= i < prev_ws.len() implies newline_count(#[trigger] prev_ws[i].0) == 0 by {
            assert(prev_ws[i] == ws[i]);
        }
        lemma_word_lines_shape(prev_ws);
        let prev = word_lines(prev_ws);
        assert(ws[ws.len() - 2] == prev_ws.last());
        if ws[ws.len() - 2].1 != ws.last().1 {
            assert forall|k: int| 0 <= k < word_lines(ws).len() implies newline_count(#[trigger] word_lines(ws)[k])
                == 0 by {
                if k < prev.len() {
                    assert(word_lines(ws)[k] == prev[k]);
                }
            }
        } else {
            let last = prev.last() + seq![' '] + ws.last().0;
            lemma_newline_count_concat(prev.last(), seq![' ']);
            lemma_newline_count_concat(prev.last() + seq![' '], ws.last().0);
            assert(newline_count(seq![' ']) == 0) by {
                assert(seq![' '].drop_last() =~= Seq::<char>::empty());
                assert(newline_count(Seq::<char>::empty()) == 0);
                assert(seq![' '].last() == ' ');
            }
            assert(prev.last() == prev[prev.len() - 1]);
            assert forall|k: int| 0 <= k < word_lines(ws).len() implies newline_count(#[trigger] word_lines(ws)[k])
                == 0 by {
                if k < prev.len() - 1 {
                    assert(word_lines(ws)[k] == prev[k]);
                } else {
                    assert(word_lines(ws)[k] == last);
                }
            }
        }
    }
}

proof fn lemma_joined_newlines(ls: Seq<Seq<char>>)
    requires
        ls.len() > 0,
        forall|k: int| 0 <= k < ls.len() ==> newline_count(#[trigger] ls[k]) == 0,
    ensures
        newline_count(joined_lines(ls)) == ls.len() - 1,
    decreases ls.len(),
{
    if ls.len() > 1 {
        let p = ls.drop_last();
        assert forall|k: int| 0 <= k < p.len() implies newline_count(#[trigger] p[k]) == 0 by {
            assert(p[k] == ls[k]);
        }
        lemma_joined_newlines(p);
        lemma_newline_count_concat(joined_lines(p), seq!['\n']);
        lemma_newline_count_concat(joined_lines(p) + seq!['\n'], ls.last());
        assert(newline_count(seq!['\n']) == 1) by {
            assert(seq!['\n'].drop_last() =~= Seq::<char>::empty());
            assert(newline_count(Seq::<char>::empty()) == 0);
            assert(seq!['\n'].last() == '\n');
        }
        assert(ls.last() == ls[ls.len() - 1]);
    } else {
        assert(joined_lines(ls) == ls[0]);
    }
}

/// The full text breaks lines exactly where the line key changes: for words that hold
/// no `\n`, the text has one `\n` for each word whose (page, block, paragraph, line)
/// key differs in any field from the word before it, and no other.
pub proof fn lemma_full_text_breaks_at_key_changes(ws: Seq<(Seq<char>, LineKey)>)
    requires
        words_without_newline(ws),
    ensures
        newline_count(joined_lines(word_lines(ws))) == key_changes(ws),
{
    if ws.len() == 0 {
        assert(word_lines(ws) =~= Seq::<Seq<char>>::empty());
        assert(joined_lines(word_lines(ws)) =~= Seq::<char>::empty());
    } else {
        lemma_word_lines_shape(ws);
        lemma_joined_newlines(word_lines(ws));
    }
}

/// How many times `c` occurs in `s`.
pub open spec fn char_count(s: Seq<char>, c: char) -> nat
    decreases s.len(),
{
    if s.len() == 0 {
        0
    } else {
        char_count(s.drop_last(), c) + if s.last() == c {
            1nat
        } else {
            0nat
        }
    }
}

proof fn lemma_char_count_concat(a: Seq<char>, b: Seq<char>, c: char)
    ensures
        char_count(a + b, c) == char_count(a, c) + char_count(b, c),
    decreases b.len(),
{
    if b.len() > 0 {
        assert((a + b).drop_last() =~= a + b.drop_last());
        lemma_char_count_concat(a, b.drop_last(), c);
    } else {
        assert(a + b =~= a);
    }
}

proof fn lemma_char_count_single(x: char, c: char)
    ensures
        char_count(seq![x], c) == if x == c {
            1nat
        } else {
            0nat
        },
{
    assert(seq![x].drop_last() =~= Seq::<char>::empty());
    assert(char_count(Seq::<char>::empty(), c) == 0);
    assert(seq![x].last() == x);
}

/// How many times `c` occurs in the lines `ls` altogether.
pub open spec fn lines_char_count(ls: Seq<Seq<char>>, c: char) -> nat
    decreases ls.len(),
{
    if ls.len() == 0 {
        0
    } else {
        lines_char_count(ls.drop_last(), c) + char_count(ls.last(), c)
    }
}

/// Whether no word of `ws` holds a space or a `\n`.
pub open spec fn plain_words(ws: Seq<(Seq<char>, LineKey)>) -> bool {
    forall|i: int| 0 <= i < ws.len() ==> char_count(#[trigger] ws[i].0, ' ') == 0 && char_count(ws[i].0, '\n') == 0
}

proof fn lemma_word_lines_spaces(ws: Seq<(Seq<char>, LineKey)>)
    requires
        ws.len() > 0,
        plain_words(ws),
    ensures
        lines_char_count(word_lines(ws), ' ') + word_lines(ws).len() == ws.len(),
    decreases ws.len(),
{
    let prev_ws = ws.drop_last();
    assert(ws.last() == ws[ws.len() - 1]);
    lemma_word_lines_nonempty(ws);
    if ws.len() == 1 {
        assert(word_lines(prev_ws) =~= Seq::<Seq<char>>::empty());
        assert(word_lines(ws) =~= seq![ws[0].0]);
        assert(seq![ws[0].0].drop_last() =~= Seq::<Seq<char>>::empty());
    } else {
        assert forall|i: int| 0 <= i < prev_ws.len() implies char_count(#[trigger] prev_ws[i].0, ' ') == 0
            && char_count(prev_ws[i].0, '\n') == 0 by {
            assert(prev_ws[i] == ws[i]);
        }
        lemma_word_lines_spaces(prev_ws);
        lemma_word_lines_nonempty(prev_ws);
        let prev = word_lines(prev_ws);
        assert(ws[ws.len() - 2] == prev_ws.last());
        if ws[ws.len() - 2].1 != ws.last().1 {
            assert(word_lines(ws).drop_last() =~= prev);
        } else {
            let last = prev.last() + seq![' '] + ws.last().0;
            lemma_char_count_concat(prev.last(), seq![' '], ' ');
            lemma_char_count_concat(prev.last() + seq![' '], ws.last().0, ' ');
            lemma_char_count_single(' ', ' ');
            assert(word_lines(ws).drop_last() =~= prev.drop_last());
            assert(prev.drop_last().push(prev.last()) =~= prev);
            assert(lines_char_count(prev, ' ') == lines_char_count(prev.drop_last(), ' ') + char_count(
                prev.last(),
                ' ',
            ));
        }
    }
}

proof fn lemma_joined_spaces(ls: Seq<Seq<char>>)
    requires
        ls.len() > 0,
    ensures
        char_count(joined_lines(ls), ' ') == lines_char_count(ls, ' '),
    decreases ls.len(),
{
    if ls.len() > 1 {
        let p = ls.drop_last();
        lemma_joined_spaces(p);
        lemma_char_count_concat(joined_lines(p), seq!['\n'], ' ');
        lemma_char_count_concat(joined_lines(p) + seq!['\n'], ls.last(), ' ');
        lemma_char_count_single('\n', ' ');
    } else {
        assert(ls.drop_last() =~= Seq::<Seq<char>>::empty());
        assert(lines_char_count(ls.drop_last(), ' ') == 0);
        assert(ls.last() == ls[0]);
        assert(joined_lines(ls) == ls[0]);
    }
}

/// Words on one line are joined by single spaces and nothing else is: for words that
/// hold no space and no `\n`, the full text of `n` words holds `n - 1` separators in
/// all, of which exactly those between words with different (page, block, paragraph,
/// line) keys are `\n` and all the others are spaces.
pub proof fn lemma_full_text_separators(ws: Seq<(Seq<char>, LineKey)>)
    requires
        ws.len() > 0,
        plain_words(ws),
    ensures
        char_count(joined_lines(word_lines(ws)), ' ') + key_changes(ws) + 1 == ws.len(),
        newline_count(joined_lines(word_lines(ws))) == key_changes(ws),
{
    assert forall|i: int| 0 <= i < ws.len() implies newline_count(#[trigger] ws[i].0) == 0 by {
        lemma_newline_is_count(ws[i].0);
    }
    lemma_full_text_breaks_at_key_changes(ws);
    lemma_word_lines_shape(ws);
    lemma_word_lines_spaces(ws);
    lemma_joined_spaces(word_lines(ws));
}

proof fn lemma_newline_is_count(s: Seq<char>)
    ensures
        newline_count(s) == char_count(s, '\n'),
    decreases s.len(),
{
    if s.len() > 0 {
        lemma_newline_is_count(s.drop_last());
    }
}

/// The full text of the recognized words: their lines, joined with `\n`.
pub fn ocr_full_text(words: &Vec<(String, LineKey)>) -> (r: String)
    ensures
        r@ == joined_lines(word_lines(words_view(words@))),
        words_without_newline(words_view(words@)) ==> newline_count(r@) == key_changes(words_view(words@)),
        words@.len() > 0 && plain_words(words_view(words@)) ==> char_count(r@, ' ') + key_changes(
            words_view(words@),
        ) + 1 == words@.len(),
{
    let ghost ws = words_view(words@);
    let mut done: Vec<String> = Vec::new();
    let mut current = String::new();
    let mut i: usize = 0;
    while i < words.len()
        invariant
            i <= words@.len(),
            ws == words_view(words@),
            i == 0 ==> done@.len() == 0 && current@ == Seq::<char>::empty(),
            i > 0 ==> string_views(done@).push(current@) == word_lines(ws.take(i as int)),
        decreases words@.len() - i,
    {
        let ghost wt = ws.take(i + 1);
        assert(wt.drop_last() =~= ws.take(i as int));
        assert(wt.last() == ws[i as int]);
        let (word, key) = (&words[i].0, words[i].1);
        assert(ws[i as int] == (word@, key));
        if i == 0 {
            current = word.clone();
            assert(wt.drop_last() =~= Seq::<(Seq<char>, LineKey)>::empty());
            assert(word_lines(Seq::<(Seq<char>, LineKey)>::empty()) =~= Seq::<Seq<char>>::empty());
            assert(word_lines(wt) =~= seq![word@]);
        } else if words[i - 1].1 != key {
            proof {
                lemma_word_lines_nonempty(ws.take(i as int));
            }
            let ghost before = string_views(done@);
            let finished = current;
            done.push(finished);
            assert(string_views(done@) =~= before.push(finished@));
            current = word.clone();
            assert(ws[i - 1] == (words@[i - 1].0@, words@[i - 1].1));
            assert(wt[wt.len() - 2] == ws[i - 1]);
        } else {
            let ghost prev = word_lines(ws.take(i as int));
            assert(ws[i - 1] == (words@[i - 1].0@, words@[i - 1].1));
            assert(wt[wt.len() - 2] == ws[i - 1]);
            let ghost old = current@;
            assert(prev.drop_last() =~= string_views(done@));
            assert(prev.last() == old);
            proof {
                reveal_strlit(" ");
            }
            assert(" "@ =~= seq![' ']);
            current.append(" ");
            current.append(word.as_str());
            assert(current@ =~= old + seq![' '] + word@);
            assert(string_views(done@).push(current@) =~= prev.drop_last().push(prev.last() + seq![' '] + word@));
        }
        i = i + 1;
    }
    assert(ws.take(i as int) =~= ws);
    proof {
        if words_without_newline(ws) {
            lemma_full_text_breaks_at_key_changes(ws);
        }
        if ws.len() > 0 && plain_words(ws) {
            lemma_full_text_separators(ws);
        }
    }
    let mut out = String::new();
    if words.len() == 0 {
        return out;
    }
    let ghost ls = string_views(done@).push(current@);
    let mut k: usize = 0;
    while k < done.len()
        invariant
            k <= done@.len(),
            ls == string_views(done@).push(current@),
            k == 0 ==> out@ == Seq::<char>::empty(),
            k > 0 ==> out@ == joined_lines(ls.take(k as int)) + seq!['\n'],
        decreases done@.len() - k,
    {
        let ghost lt = ls.take(k + 1);
        assert(lt.drop_last() =~= ls.take(k as int));
        assert(ls[k as int] == string_views(done@)[k as int]);
        assert(lt.last() == done@[k as int]@);
        assert(lt.len() == k + 1);
        if k == 0 {
            assert(lt[0] == done@[0]@);
        }
        let ghost old = out@;
        proof {
            reveal_strlit("\n");
        }
        assert("\n"@ =~= seq!['\n']);
        out.append(done[k].as_str());
        out.append("\n");
        assert(out@ =~= old + done@[k as int]@ + seq!['\n']);
        if k > 0 {
            assert(joined_lines(lt) == joined_lines(ls.take(k as int)) + seq!['\n'] + done@[k as int]@);
        }
        assert(out@ =~= joined_lines(lt) + seq!['\n']);
        k = k + 1;
    }
    let ghost lt = ls.take(k + 1);
    assert(lt =~= ls);
    assert(lt.drop_last() =~= ls.take(k as int));
    out.append(current.as_str());
    out
}

} // verus!
