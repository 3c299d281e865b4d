use devtools::worker::builtin::{builtin_file_fields, fields_from_builtin, read_builtin_bytes, BuiltinStreams};
use devtools::worker::metadata::MetadataField;

const ONE_PIXEL_PNG: &[u8] = &[
    0x89, 0x50, 0x4E, 0x47, 0x0D, 0x0A, 0x1A, 0x0A, 0x00, 0x00, 0x00, 0x0D, 0x49, 0x48, 0x44, 0x52, 0x00, 0x00,
    0x00, 0x01, 0x00, 0x00, 0x00, 0x01, 0x08, 0x06, 0x00, 0x00, 0x00, 0x1F, 0x15, 0xC4, 0x89, 0x00, 0x00, 0x00,
    0x0A, 0x49, 0x44, 0x41, 0x54, 0x78, 0x9C, 0x63, 0x00, 0x01, 0x00, 0x00, 0x05, 0x00, 0x01, 0x0D, 0x0A, 0x2D,
    0xB4, 0x00, 0x00, 0x00, 0x00, 0x49, 0x45, 0x4E, 0x44, 0xAE, 0x42, 0x60, 0x82,
];

fn pair(name: &str, value: &str) -> (String, String) {
    (name.to_owned(), value.to_owned())
}

fn field(group: &str, name: &str, value: &str) -> MetadataField {
    MetadataField { group: group.to_owned(), name: name.to_owned(), value: value.to_owned() }
}

#[test]
fn builtin_streams_become_groups_in_order() {
    let streams = BuiltinStreams {
        general: vec![pair("Format", "PNG"), pair("FileSize", "67")],
        video: Vec::new(),
        audio: vec![pair("Codec", "AAC")],
        text: Vec::new(),
        image: vec![pair("Width", "1")],
        exif: vec![pair("Make", "Cam")],
        iptc: Vec::new(),
        xmp: vec![pair("Rating", "5")],
    };
    assert_eq!(
        fields_from_builtin(&streams),
        vec![
            field("General", "Format", "PNG"),
            field("General", "FileSize", "67"),
            field("Audio", "Codec", "AAC"),
            field("Image", "Width", "1"),
            field("EXIF", "Make", "Cam"),
            field("XMP", "Rating", "5"),
        ]
    );
    assert_eq!(builtin_file_fields(Some(streams.clone())), Ok(fields_from_builtin(&streams)));
    assert_eq!(
        builtin_file_fields(None),
        Err("the built-in metadata backend does not recognize this file".to_owned())
    );
}

#[test]
fn builtin_backend_reads_a_png_and_refuses_empty_input() {
    let fields = read_builtin_bytes(ONE_PIXEL_PNG).unwrap();
    assert!(!fields.is_empty());
    let groups = ["General", "Video", "Audio", "Text", "Image", "EXIF", "IPTC", "XMP"];
    assert!(fields.iter().all(|field| groups.contains(&field.group.as_str())));
    assert_eq!(
        read_builtin_bytes(b""),
        Err("the built-in metadata backend does not recognize this image".to_owned())
    );
}
