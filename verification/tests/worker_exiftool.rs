use devtools::worker::exiftool::{normalize_documents, normalize_external_json, ExifValue};
use devtools::worker::metadata::MetadataField;

fn field(group: &str, name: &str, value: &str) -> MetadataField {
    MetadataField { group: group.to_owned(), name: name.to_owned(), value: value.to_owned() }
}

#[test]
fn normalizes_and_sorts_exiftool_groups() {
    let fields = normalize_external_json(
        br#"[{"File:FileName":"movie.mp4","QuickTime:Duration":1.25,"Composite:GPS":[1,2]}]"#,
    )
    .expect("ExifTool JSON 应可规范化");

    assert_eq!(
        fields,
        vec![
            MetadataField {
                group: "Composite".to_owned(),
                name: "GPS".to_owned(),
                value: "[1,2]".to_owned(),
            },
            MetadataField {
                group: "File".to_owned(),
                name: "FileName".to_owned(),
                value: "movie.mp4".to_owned(),
            },
            MetadataField {
                group: "QuickTime".to_owned(),
                name: "Duration".to_owned(),
                value: "1.25".to_owned(),
            },
        ]
    );
}

#[test]
fn exiftool_values_keys_and_order() {
    let fields = normalize_external_json(
        br#"[{"x":"b","ExifTool:x":"a","B:n":null,"A:z":true,"A:y":{"k":"v"},"A:y2":"say \"hi\""},{"Z:z":1}]"#,
    )
    .unwrap();
    assert_eq!(
        fields,
        vec![
            field("A", "y", "{\"k\":\"v\"}"),
            field("A", "y2", "say \"hi\""),
            field("A", "z", "true"),
            field("B", "n", "null"),
            field("ExifTool", "x", "a"),
            field("ExifTool", "x", "b"),
        ]
    );
}

#[test]
fn exiftool_output_errors() {
    assert_eq!(normalize_external_json(b"[]"), Err("ExifTool returned no result".to_owned()));
    assert!(normalize_external_json(b"{\"a\":1}").unwrap_err().starts_with("invalid ExifTool JSON: "));
    assert!(normalize_external_json(b"not json").unwrap_err().starts_with("invalid ExifTool JSON: "));
    assert_eq!(normalize_external_json(b"[{}]"), Ok(Vec::new()));
}

#[test]
fn normalizing_documents_keeps_equal_fields_in_order() {
    let documents = vec![vec![
        ("G:b".to_owned(), ExifValue::Text("1".to_owned())),
        ("G:a".to_owned(), ExifValue::Text("2".to_owned())),
        ("G:b".to_owned(), ExifValue::Json("3".to_owned())),
        ("G:a:c".to_owned(), ExifValue::Null),
    ]];
    assert_eq!(
        normalize_documents(documents),
        Ok(vec![
            field("G", "a", "2"),
            field("G", "a:c", "null"),
            field("G", "b", "1"),
            field("G", "b", "3"),
        ])
    );
    assert_eq!(normalize_documents(Vec::new()), Err("ExifTool returned no result".to_owned()));
}
