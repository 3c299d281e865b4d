//! The built-in metadata backend: the `revelo` crate reads a media file's streams,
//! and each stream's fields become metadata fields of a group named after it, in a
//! fixed order of groups.

use vstd::prelude::*;
use crate::worker::exiftool::{field_view, fields_view};
use crate::worker::metadata::MetadataField;

verus! {

broadcast use vstd::string::group_string_axioms;

/// The streams that `revelo` reads from a media file, each as its (name, value)
/// fields in the order it gives them.
#[derive(Debug, Clone, PartialEq, Eq)]
pub struct BuiltinStreams {
    pub general: Vec<(String, String)>,
    pub video: Vec<(String, String)>,
    pub audio: Vec<(String, String)>,
    pub text: Vec<(String, String)>,
    pub image: Vec<(String, String)>,
    pub exif: Vec<(String, String)>,
    pub iptc: Vec<(String, String)>,
    pub xmp: Vec<(String, String)>,
}

/// Fields as plain text.
pub open spec fn pairs_view(v: Seq<(String, String)>) -> Seq<(Seq<char>, Seq<char>)> {
    v.map_values(|p: (String, String)| (p.0@, p.1@))
}

/// What the streams hold.
pub struct BuiltinStreamsView {
    pub general: Seq<(Seq<char>, Seq<char>)>,
    pub video: Seq<(Seq<char>, Seq<char>)>,
    pub audio: Seq<(Seq<char>, Seq<char>)>,
    pub text: Seq<(Seq<char>, Seq<char>)>,
    pub image: Seq<(Seq<char>, Seq<char>)>,
    pub exif: Seq<(Seq<char>, Seq<char>)>,
    pub iptc: Seq<(Seq<char>, Seq<char>)>,
    pub xmp: Seq<(Seq<char>, Seq<char>)>,
}

impl View for BuiltinStreams {
    type V = BuiltinStreamsView;

    open spec fn view(&self) -> BuiltinStreamsView {
        BuiltinStreamsView {
            general: pairs_view(self.general@),
            video: pairs_view(self.video@),
            audio: pairs_view(self.audio@),
            text: pairs_view(self.text@),
            image: pairs_view(self.image@),
            exif: pairs_view(self.exif@),
            iptc: pairs_view(self.iptc@),
            xmp: pairs_view(self.xmp@),
        }
    }
}

/// The streams that `revelo::Metadata::from_bytes` reads from `bytes`, or `None`
/// where no parser recognizes them.
pub uninterp spec fn revelo_streams(bytes: Seq<u8>) -> Option<BuiltinStreamsView>;

/// `revelo::Metadata::from_bytes`, with the fields of each of its eight streams
/// (`general` to `xmp`) taken out as owned text. The contract claims that the outcome
/// is a function of the bytes alone, named `revelo_streams`. revelo's parsers are meant
/// to turn any bytes into a result without panicking (its own test suite sweeps random
/// and truncated inputs for panics); no input is known on which it panics, and none is
/// left out, but that it never does is not proved here.
#[verifier::external_body]
fn read_with_revelo(bytes: &[u8]) -> (r: Option<BuiltinStreams>)
    ensures
        match r {
            Some(s) => revelo_streams(bytes@) == Some(s@),
            None => revelo_streams(bytes@) is None,
        },
{
    let metadata = revelo::Metadata::from_bytes(bytes)?;
    let owned = |(name, value): (&str, &str)| (name.to_owned(), value.to_owned());
    Some(BuiltinStreams {
        general: metadata.general().map(owned).collect(),
        video: metadata.video().map(owned).collect(),
        audio: metadata.audio().map(owned).collect(),
        text: metadata.text().map(owned).collect(),
        image: metadata.image().map(owned).collect(),
        exif: metadata.exif().map(owned).collect(),
        iptc: metadata.iptc().map(owned).collect(),
        xmp: metadata.xmp().map(owned).collect(),
    })
}

/// The fields of one stream, in the group `group`.
pub open spec fn group_fields(group: Seq<char>, pairs: Seq<(Seq<char>, Seq<char>)>) -> Seq<
    (Seq<char>, Seq<char>, Seq<char>),
> {
    pairs.map_values(|p: (Seq<char>, Seq<char>)| (group, p.0, p.1))
}

/// The fields of all streams: the groups `General`, `Video`, `Audio`, `Text`,
/// `Image`, `EXIF`, `IPTC` and `XMP`, in that order, each with its stream's fields in
/// their order.
pub open spec fn builtin_fields(s: BuiltinStreamsView) -> Seq<(Seq<char>, Seq<char>, Seq<char>)> {
    group_fields("General"@, s.general) + group_fields("Video"@, s.video) + group_fields("Audio"@, s.audio)
        + group_fields("Text"@, s.text) + group_fields("Image"@, s.image) + group_fields("EXIF"@, s.exif)
        + group_fields("IPTC"@, s.iptc) + group_fields("XMP"@, s.xmp)
}

fn append_fields(fields: &mut Vec<MetadataField>, group: &str, pairs: &Vec<(String, String)>)
    ensures
        fields_view(final(fields)@) == fields_view(old(fields)@) + group_fields(group@, pairs_view(pairs@)),
{
    let ghost start = fields_view(fields@);
    let mut i: usize = 0;
    while i < pairs.len()
        invariant
            i <= pairs@.len(),
            fields_view(fields@) == start + group_fields(group@, pairs_view(pairs@)).take(i as int),
        decreases pairs@.len() - i,
    {
        let ghost before = fields_view(fields@);
        let field = MetadataField {
            group: String::from_str(group),
            name: pairs[i].0.clone(),
            value: pairs[i].1.clone(),
        };
        fields.push(field);
        assert(fields_view(fields@) =~= before.push(field_view(field)));
        assert(group_fields(group@, pairs_view(pairs@)).take(i + 1) =~= group_fields(
            group@,
            pairs_view(pairs@),
        ).take(i as int).push(field_view(field)));
        i = i + 1;
    }
    assert(group_fields(group@, pairs_view(pairs@)).take(i as int) =~= group_fields(group@, pairs_view(pairs@)));
}

/// The metadata fields of the streams that `revelo` read.
pub fn fields_from_builtin(streams: &BuiltinStreams) -> (r: Vec<MetadataField>)
    ensures
        fields_view(r@) == builtin_fields(streams@),
{
    let mut fields: Vec<MetadataField> = Vec::new();
    assert(fields_view(fields@) =~= Seq::<(Seq<char>, Seq<char>, Seq<char>)>::empty());
    append_fields(&mut fields, "General", &streams.general);
    append_fields(&mut fields, "Video", &streams.video);
    append_fields(&mut fields, "Audio", &streams.audio);
    append_fields(&mut fields, "Text", &streams.text);
    append_fields(&mut fields, "Image", &streams.image);
    append_fields(&mut fields, "EXIF", &streams.exif);
    append_fields(&mut fields, "IPTC", &streams.iptc);
    append_fields(&mut fields, "XMP", &streams.xmp);
    assert(fields_view(fields@) =~= builtin_fields(streams@));
    fields
}

/// The fields of a file that the built-in backend read, or the message that it does
/// not recognize the file.
pub fn builtin_file_fields(streams: Option<BuiltinStreams>) -> (r: Result<Vec<MetadataField>, String>)
    ensures
        match streams {
            Some(s) => r matches Ok(v) && fields_view(v@) == builtin_fields(s@),
            None => r matches Err(e) && e@ == "the built-in metadata backend does not recognize this file"@,
        },
{
    match streams {
        Some(s) => Ok(fields_from_builtin(&s)),
        None => Err(String::from_str("the built-in metadata backend does not recognize this file")),
    }
}

/// The fields of a clipboard image that the built-in backend reads, or the message
/// that it does not recognize the image.
pub fn read_builtin_bytes(bytes: &[u8]) -> (r: Result<Vec<MetadataField>, String>)
    ensures
        match revelo_streams(bytes@) {
            Some(s) => r matches Ok(v) && fields_view(v@) == builtin_fields(s),
            None => r matches Err(e) && e@ == "the built-in metadata backend does not recognize this image"@,
        },
{
    match read_with_revelo(bytes) {
        Some(s) => Ok(fields_from_builtin(&s)),
        None => Err(String::from_str("the built-in metadata backend does not recognize this image")),
    }
}

} // verus!
