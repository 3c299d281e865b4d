//! ExifTool's JSON output turned into metadata fields: each `Group:Name` key of the
//! first document becomes a field of that group, and the fields are sorted by group
//! and then by name, fields that compare equal keeping their order.

use vstd::prelude::*;
use crate::model::json_error_text;
use crate::text::{lemma_text_le_antisymmetric, lemma_text_le_total,
    lemma_text_le_transitive, same_text, split_once, split_once_spec, text_le, text_le_exec};
use crate::worker::metadata::MetadataField;

verus! {

broadcast use vstd::string::group_string_axioms;

/// A value of ExifTool's JSON output: a JSON string, `null`, or any other JSON value
/// by its compact JSON text.
#[derive(Debug, Clone, PartialEq, Eq)]
pub enum ExifValue {
    Text(String),
    Null,
    Json(String),
}

/// What an ExifTool value holds.
pub enum ExifValueView {
    Text(Seq<char>),
    Null,
    Json(Seq<char>),
}

impl View for ExifValue {
    type V = ExifValueView;

    open spec fn view(&self) -> ExifValueView {
        match self {
            ExifValue::Text(s) => ExifValueView::Text(s@),
            ExifValue::Null => ExifValueView::Null,
            ExifValue::Json(s) => ExifValueView::Json(s@),
        }
    }
}

/// One document of ExifTool's output: its keys and values, in the order they come.
pub open spec fn document_view(d: Vec<(String, ExifValue)>) -> Seq<(Seq<char>, ExifValueView)> {
    d@.map_values(|e: (String, ExifValue)| (e.0@, e.1@))
}

/// The documents of ExifTool's output.
pub open spec fn documents_view(ds: Seq<Vec<(String, ExifValue)>>) -> Seq<Seq<(Seq<char>, ExifValueView)>> {
    ds.map_values(|d: Vec<(String, ExifValue)>| document_view(d))
}

/// The documents that `serde_json` reads from ExifTool's output (a JSON array of
/// objects), or `None` where the output is not such an array.
pub uninterp spec fn exiftool_documents(output: Seq<u8>) -> Option<Seq<Seq<(Seq<char>, ExifValueView)>>>;

/// `serde_json::from_slice` of ExifTool's output into a list of JSON objects, each
/// object's entries taken out in the map's order, strings kept as they are and other
/// non-null values written back with `serde_json::to_string`. The contract claims
/// that the outcome is a function of the bytes alone, named `exiftool_documents`.
#[verifier::external_body]
fn read_exiftool_json(output: &[u8]) -> (r: Result<Vec<Vec<(String, ExifValue)>>, serde_json::Error>)
    ensures
        match r {
            Ok(ds) => exiftool_documents(output@) == Some(documents_view(ds@)),
            Err(_) => exiftool_documents(output@) is None,
        },
{
    let documents: Vec<serde_json::Map<String, serde_json::Value>> = serde_json::from_slice(output)?;
    Ok(documents.into_iter().map(|document| document.into_iter().map(|(key, value)| match value {
        serde_json::Value::String(text) => (key, ExifValue::Text(text)),
        serde_json::Value::Null => (key, ExifValue::Null),
        other => (key, ExifValue::Json(serde_json::to_string(&other).unwrap_or_default())),
    }).collect()).collect())
}

/// A field as plain text: group, name and value.
pub open spec fn field_view(f: MetadataField) -> (Seq<char>, Seq<char>, Seq<char>) {
    (f.group@, f.name@, f.value@)
}

/// The fields of a list, as plain text.
pub open spec fn fields_view(v: Seq<MetadataField>) -> Seq<(Seq<char>, Seq<char>, Seq<char>)> {
    v.map_values(|f: MetadataField| field_view(f))
}

/// The text of a value: a string as it is, `null` for null, and the JSON text of
/// anything else.
pub open spec fn value_text(v: ExifValueView) -> Seq<char> {
    match v {
        ExifValueView::Text(s) => s,
        ExifValueView::Null => "null"@,
        ExifValueView::Json(s) => s,
    }
}

/// The field of one entry: the key split at its first `:` into group and name, or the
/// group `ExifTool` where the key holds no `:`.
pub open spec fn field_of(e: (Seq<char>, ExifValueView)) -> (Seq<char>, Seq<char>, Seq<char>) {
    match split_once_spec(e.0, ':') {
        Some((group, name)) => (group, name, value_text(e.1)),
        None => ("ExifTool"@, e.0, value_text(e.1)),
    }
}

/// Whether field `a` sorts no later than field `b`: by group, then by name.
pub open spec fn field_le(a: (Seq<char>, Seq<char>, Seq<char>), b: (Seq<char>, Seq<char>, Seq<char>)) -> bool {
    if a.0 == b.0 {
        text_le(a.1, b.1)
    } else {
        text_le(a.0, b.0)
    }
}

/// `x` inserted into `t` after the last element that sorts no later than it.
pub open spec fn insert_sorted(
    t: Seq<(Seq<char>, Seq<char>, Seq<char>)>,
    x: (Seq<char>, Seq<char>, Seq<char>),
) -> Seq<(Seq<char>, Seq<char>, Seq<char>)>
    decreases t.len(),
{
    if t.len() == 0 {
        seq![x]
    } else if field_le(t.last(), x) {
        t.push(x)
    } else {
        insert_sorted(t.drop_last(), x).push(t.last())
    }
}

/// The fields sorted by group and name, as a stable sort orders them: each field in
/// turn is placed after every earlier one that sorts no later than it.
pub open spec fn sorted_fields(s: Seq<(Seq<char>, Seq<char>, Seq<char>)>) -> Seq<(Seq<char>, Seq<char>, Seq<char>)>
    decreases s.len(),
{
    if s.len() == 0 {
        s
    } else {
        insert_sorted(sorted_fields(s.drop_last()), s.last())
    }
}

/// Whether fields are in order of group and name.
pub open spec fn fields_sorted(s: Seq<(Seq<char>, Seq<char>, Seq<char>)>) -> bool {
    forall|i: int, j: int| 0 <= i < j < s.len() ==> field_le(#[trigger] s[i], #[trigger] s[j])
}

/// The fields of ExifTool's documents: those of the first document, sorted; the
/// message `ExifTool returned no result` where there is no document.
pub open spec fn normalized_documents(
    docs: Seq<Seq<(Seq<char>, ExifValueView)>>,
) -> Result<Seq<(Seq<char>, Seq<char>, Seq<char>)>, Seq<char>> {
    if docs.len() == 0 {
        Err("ExifTool returned no result"@)
    } else {
        Ok(sorted_fields(docs[0].map_values(|e: (Seq<char>, ExifValueView)| field_of(e))))
    }
}

proof fn lemma_field_le_total(a: (Seq<char>, Seq<char>, Seq<char>), b: (Seq<char>, Seq<char>, Seq<char>))
    ensures
        field_le(a, b) || field_le(b, a),
{
    lemma_text_le_total(a.0, b.0);
    lemma_text_le_total(a.1, b.1);
}

proof fn lemma_field_le_transitive(
    a: (Seq<char>, Seq<char>, Seq<char>),
    b: (Seq<char>, Seq<char>, Seq<char>),
    c: (Seq<char>, Seq<char>, Seq<char>),
)
    requires
        field_le(a, b),
        field_le(b, c),
    ensures
        field_le(a, c),
{
    if a.0 == b.0 && b.0 == c.0 {
        lemma_text_le_transitive(a.1, b.1, c.1);
    } else if a.0 != b.0 && b.0 != c.0 {
        lemma_text_le_transitive(a.0, b.0, c.0);
        if a.0 == c.0 {
            lemma_text_le_antisymmetric(a.0, b.0);
        }
    }
}

/// Every element of the result of `insert_sorted` is an element of `t` or `x`: an
/// upper bound of both bounds the result.
proof fn lemma_insert_sorted_bound(
    t: Seq<(Seq<char>, Seq<char>, Seq<char>)>,
    x: (Seq<char>, Seq<char>, Seq<char>),
    y: (Seq<char>, Seq<char>, Seq<char>),
)
    requires
        forall|j: int| 0 <= j < t.len() ==> field_le(#[trigger] t[j], y),
        field_le(x, y),
    ensures
        forall|k: int| 0 <= k < insert_sorted(t, x).len() ==> field_le(#[trigger] insert_sorted(t, x)[k], y),
        insert_sorted(t, x).len() == t.len() + 1,
    decreases t.len(),
{
    if t.len() > 0 && !field_le(t.last(), x) {
        lemma_insert_sorted_bound(t.drop_last(), x, y);
    }
}

/// Inserting into sorted fields keeps them sorted, and adds exactly `x`.
proof fn lemma_insert_sorted(t: Seq<(Seq<char>, Seq<char>, Seq<char>)>, x: (Seq<char>, Seq<char>, Seq<char>))
    requires
        fields_sorted(t),
    ensures
        fields_sorted(insert_sorted(t, x)),
        insert_sorted(t, x).to_multiset() == t.to_multiset().insert(x),
    decreases t.len(),
{
    broadcast use vstd::multiset::group_multiset_axioms;
    if t.len() == 0 {
        assert(insert_sorted(t, x) =~= seq![x]);
        vstd::seq_lib::to_multiset_build(t, x);
        assert(seq![x] =~= t.push(x));
    } else if field_le(t.last(), x) {
        let r = t.push(x);
        assert forall|i: int, j: int| 0 <= i < j < r.len() implies field_le(#[trigger] r[i], #[trigger] r[j]) by {
            if j == t.len() {
                if i < t.len() - 1 {
                    lemma_field_le_transitive(t[i], t.last(), x);
                }
            } else {
                assert(r[i] == t[i] && r[j] == t[j]);
            }
        }
        vstd::seq_lib::to_multiset_build(t, x);
    } else {
        let last = t.last();
        let u = t.drop_last();
        assert(fields_sorted(u)) by {
            assert forall|i: int, j: int| 0 <= i < j < u.len() implies field_le(#[trigger] u[i], #[trigger] u[j]) by {
                assert(u[i] == t[i] && u[j] == t[j]);
            }
        }
        lemma_insert_sorted(u, x);
        let m = insert_sorted(u, x);
        lemma_field_le_total(last, x);
        assert forall|j: int| 0 <= j < u.len() implies field_le(#[trigger] u[j], last) by {
            assert(u[j] == t[j]);
        }
        lemma_insert_sorted_bound(u, x, last);
        let r = m.push(last);
        assert forall|i: int, j: int| 0 <= i < j < r.len() implies field_le(#[trigger] r[i], #[trigger] r[j]) by {
            if j == m.len() {
                assert(r[i] == m[i]);
            } else {
                assert(r[i] == m[i] && r[j] == m[j]);
            }
        }
        vstd::seq_lib::to_multiset_build(m, last);
        vstd::seq_lib::to_multiset_build(u, last);
        assert(u.push(last) =~= t);
        assert(r.to_multiset() =~= t.to_multiset().insert(x));
    }
}

/// Normalization sorts the fields by group and then by name, and keeps every field
/// exactly as often as it occurs.
pub proof fn lemma_sorted_fields(s: Seq<(Seq<char>, Seq<char>, Seq<char>)>)
    ensures
        fields_sorted(sorted_fields(s)),
        sorted_fields(s).to_multiset() == s.to_multiset(),
    decreases s.len(),
{
    broadcast use vstd::multiset::group_multiset_axioms;
    if s.len() > 0 {
        lemma_sorted_fields(s.drop_last());
        lemma_insert_sorted(sorted_fields(s.drop_last()), s.last());
        vstd::seq_lib::to_multiset_build(s.drop_last(), s.last());
        assert(s.drop_last().push(s.last()) =~= s);
    }
}

/// Fields that are already sorted stay as they are.
pub proof fn lemma_sorted_fields_keeps_sorted(s: Seq<(Seq<char>, Seq<char>, Seq<char>)>)
    requires
        fields_sorted(s),
    ensures
        sorted_fields(s) == s,
    decreases s.len(),
{
    if s.len() > 0 {
        let u = s.drop_last();
        assert(fields_sorted(u)) by {
            assert forall|i: int, j: int| 0 <= i < j < u.len() implies field_le(#[trigger] u[i], #[trigger] u[j]) by {
                assert(u[i] == s[i] && u[j] == s[j]);
            }
        }
        lemma_sorted_fields_keeps_sorted(u);
        if u.len() > 0 {
            assert(field_le(s[u.len() - 1], s[u.len() as int]));
        }
        assert(u.push(s.last()) =~= s);
    }
}

/// Whether field `a` sorts no later than field `b`.
fn field_le_exec(a: &MetadataField, b: &MetadataField) -> (r: bool)
    ensures
        r == field_le(field_view(*a), field_view(*b)),
{
    if same_text(a.group.as_str(), b.group.as_str()) {
        text_le_exec(a.name.as_str(), b.name.as_str())
    } else {
        text_le_exec(a.group.as_str(), b.group.as_str())
    }
}

/// `t` with `x` after its first `k` elements equals `insert_sorted` when every element
/// from `k` on sorts after `x`.
proof fn lemma_insert_sorted_at(
    t: Seq<(Seq<char>, Seq<char>, Seq<char>)>,
    x: (Seq<char>, Seq<char>, Seq<char>),
    k: int,
)
    requires
        0 <= k <= t.len(),
        forall|j: int| k <= j < t.len() ==> !field_le(#[trigger] t[j], x),
        k == 0 || field_le(t[k - 1], x),
    ensures
        insert_sorted(t, x) == t.insert(k, x),
    decreases t.len(),
{
    if t.len() == 0 {
        assert(t.insert(k, x) =~= seq![x]);
    } else if k == t.len() {
        assert(t.insert(k, x) =~= t.push(x));
    } else {
        let u = t.drop_last();
        assert forall|j: int| k <= j < u.len() implies !field_le(#[trigger] u[j], x) by {
            assert(u[j] == t[j]);
        }
        if k > 0 {
            assert(u[k - 1] == t[k - 1]);
        }
        lemma_insert_sorted_at(u, x, k);
        assert(u.insert(k, x).push(t.last()) =~= t.insert(k, x));
    }
}

/// The field of one entry of an ExifTool document.
fn entry_field(entry: &(String, ExifValue)) -> (r: MetadataField)
    ensures
        field_view(r) == field_of((entry.0@, entry.1@)),
{
    let value = match &entry.1 {
        ExifValue::Text(s) => s.clone(),
        ExifValue::Null => String::from_str("null"),
        ExifValue::Json(s) => s.clone(),
    };
    match split_once(entry.0.as_str(), ':') {
        Some((group, name)) => MetadataField {
            group: String::from_str(group),
            name: String::from_str(name),
            value,
        },
        None => MetadataField { group: String::from_str("ExifTool"), name: entry.0.clone(), value },
    }
}

/// The metadata fields of ExifTool's documents: those of the first document, split
/// into group and name and sorted; an error where there is no document.
pub fn normalize_documents(documents: Vec<Vec<(String, ExifValue)>>) -> (r: Result<Vec<MetadataField>, String>)
    ensures
        match normalized_documents(documents_view(documents@)) {
            Ok(fs) => r matches Ok(v) && fields_view(v@) == fs,
            Err(m) => r matches Err(e) && e@ == m,
        },
{
    if documents.len() == 0 {
        return Err(String::from_str("ExifTool returned no result"));
    }
    let document = &documents[0];
    let ghost entries = document_view(*document).map_values(|e: (Seq<char>, ExifValueView)| field_of(e));
    let mut out: Vec<MetadataField> = Vec::new();
    let mut i: usize = 0;
    assert(entries.take(0) =~= Seq::<(Seq<char>, Seq<char>, Seq<char>)>::empty());
    while i < document.len()
        invariant
            i <= document.len(),
            entries.len() == document.len(),
            entries == document_view(*document).map_values(|e: (Seq<char>, ExifValueView)| field_of(e)),
            fields_view(out@) == sorted_fields(entries.take(i as int)),
        decreases document.len() - i,
    {
        let x = entry_field(&document[i]);
        assert(field_view(x) == entries[i as int]);
        let mut p: usize = out.len();
        while p > 0 && !field_le_exec(&out[p - 1], &x)
            invariant
                p <= out.len(),
                forall|j: int| p <= j < out.len() ==> !field_le(#[trigger] fields_view(out@)[j], field_view(x)),
            decreases p,
        {
            p = p - 1;
        }
        let ghost before = fields_view(out@);
        proof {
            if p > 0 {
                assert(before[p - 1] == field_view(out@[p - 1]));
            }
            lemma_insert_sorted_at(before, field_view(x), p as int);
        }
        out.insert(p, x);
        assert(fields_view(out@) =~= before.insert(p as int, field_view(x)));
        assert(entries.take(i + 1).drop_last() =~= entries.take(i as int));
        i = i + 1;
    }
    assert(entries.take(i as int) =~= entries);
    Ok(out)
}

/// The metadata fields of ExifTool's `-json -G1` output: the output must be a JSON
/// array of objects (`invalid ExifTool JSON: ` and the parser's message otherwise),
/// and the fields are those of its first object, sorted by group and name.
pub fn normalize_external_json(output: &[u8]) -> (r: Result<Vec<MetadataField>, String>)
    ensures
        match exiftool_documents(output@) {
            None => r matches Err(e) && "invalid ExifTool JSON: "@.is_prefix_of(e@),
            Some(docs) => match normalized_documents(docs) {
                Ok(fs) => r matches Ok(v) && fields_view(v@) == fs,
                Err(m) => r matches Err(e) && e@ == m,
            },
        },
{
    match read_exiftool_json(output) {
        Ok(documents) => normalize_documents(documents),
        Err(error) => {
            let mut s = String::from_str("invalid ExifTool JSON: ");
            let t = json_error_text(&error);
            s.append(t.as_str());
            Err(s)
        },
    }
}

} // verus!
