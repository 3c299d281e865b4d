use devtools::runner::uuid::{
    build_uuid_matches, generate_uuid, parse_uuid_query, value_for_uuid_id, UuidFormat, UuidVersion,
};

fn assert_query(query: &str, version: UuidVersion, format: UuidFormat) {
    let q = parse_uuid_query(query).unwrap_or_else(|| panic!("parse failed: {query}"));
    assert_eq!(q.version, version, "{query:?}: wrong version");
    assert_eq!(q.format, format, "{query:?}: wrong format");
}

#[test]
fn parse_default() {
    assert_query("u", UuidVersion::V4, UuidFormat::Standard);
    assert_query("uuid", UuidVersion::V4, UuidFormat::Standard);
}

#[test]
fn parse_explicit_version() {
    assert_query("u4", UuidVersion::V4, UuidFormat::Standard);
    assert_query("uuid4", UuidVersion::V4, UuidFormat::Standard);
    assert_query("u7", UuidVersion::V7, UuidFormat::Standard);
    assert_query("uuid7", UuidVersion::V7, UuidFormat::Standard);
    assert_query("u1", UuidVersion::V1, UuidFormat::Standard);
    assert_query("uuid1", UuidVersion::V1, UuidFormat::Standard);
}

#[test]
fn parse_compact() {
    assert_query("uc", UuidVersion::V4, UuidFormat::Compact);
    assert_query("uuidc", UuidVersion::V4, UuidFormat::Compact);
}

#[test]
fn parse_upper() {
    assert_query("UC", UuidVersion::V4, UuidFormat::Upper);
    assert_query("uC", UuidVersion::V4, UuidFormat::Upper);
    assert_query("uuidC", UuidVersion::V4, UuidFormat::Upper);
    assert_query("UUID", UuidVersion::V4, UuidFormat::Upper);
}

#[test]
fn parse_version_plus_format() {
    assert_query("u4c", UuidVersion::V4, UuidFormat::Compact);
    assert_query("u7c", UuidVersion::V7, UuidFormat::Compact);
    assert_query("u1c", UuidVersion::V1, UuidFormat::Compact);
    assert_query("u4C", UuidVersion::V4, UuidFormat::Upper);
    assert_query("u7C", UuidVersion::V7, UuidFormat::Upper);
    assert_query("u1C", UuidVersion::V1, UuidFormat::Upper);
}

#[test]
fn parse_case_insensitive_prefix() {
    assert_query("U", UuidVersion::V4, UuidFormat::Standard);
    assert_query("U7", UuidVersion::V7, UuidFormat::Standard);
    assert_query("U4c", UuidVersion::V4, UuidFormat::Compact);
}

#[test]
fn parse_invalid() {
    assert!(parse_uuid_query("ua").is_none());
    assert!(parse_uuid_query("u z").is_none());
    assert!(parse_uuid_query("xyz").is_none());
    assert!(parse_uuid_query("ud").is_none());
    assert!(parse_uuid_query("uid").is_none());
    assert!(parse_uuid_query("u9").is_none());
    assert!(parse_uuid_query("u47").is_none());
    assert!(parse_uuid_query("u4x").is_none());
}

#[test]
fn generate_v4() {
    let s = generate_uuid(&UuidVersion::V4, &UuidFormat::Standard);
    assert_eq!(s.len(), 36);
    assert!(s.contains('-'));
    assert_eq!(&s[14..15], "4");
}

#[test]
fn generate_v7() {
    let s = generate_uuid(&UuidVersion::V7, &UuidFormat::Standard);
    assert_eq!(s.len(), 36);
    assert!(s.contains('-'));
    assert_eq!(&s[14..15], "7");
}

#[test]
fn generate_v1() {
    let s = generate_uuid(&UuidVersion::V1, &UuidFormat::Standard);
    assert_eq!(s.len(), 36);
    assert!(s.contains('-'));
    assert_eq!(&s[14..15], "1");
}

#[test]
fn generate_compact() {
    let s = generate_uuid(&UuidVersion::V4, &UuidFormat::Compact);
    assert_eq!(s.len(), 32);
    assert!(!s.contains('-'));
}

#[test]
fn generate_upper() {
    let s = generate_uuid(&UuidVersion::V4, &UuidFormat::Upper);
    assert_eq!(s.len(), 36);
    assert!(s.contains('-'));
    assert!(s.chars().all(|c| c.is_ascii_uppercase() || c.is_ascii_digit() || c == '-'));
}

#[test]
fn generate_different_each_call() {
    let a = generate_uuid(&UuidVersion::V4, &UuidFormat::Standard);
    let b = generate_uuid(&UuidVersion::V4, &UuidFormat::Standard);
    assert_ne!(a, b);
}

#[test]
fn id_roundtrip() {
    let q = parse_uuid_query("u7c").unwrap();
    let matches = build_uuid_matches(&q);
    let id = &matches[0].id;
    assert!(id.starts_with("uuid:v7:compact"));
    let suffix = id.strip_prefix("uuid:").unwrap();
    let value = value_for_uuid_id(suffix).unwrap();
    assert_eq!(value.len(), 32);
    assert!(!value.contains('-'));
}

#[test]
fn uuid_match_carries_title_and_a_fresh_value() {
    let q = parse_uuid_query("u4C").unwrap();
    let matches = build_uuid_matches(&q);
    assert_eq!(matches.len(), 1);
    assert_eq!(matches[0].id, "uuid:v4:upper");
    assert_eq!(matches[0].icon, "code-class");
    assert_eq!(matches[0].category, "DevTools");
    assert_eq!(matches[0].subtext.len(), 36);
    assert!(matches[0].subtext.chars().all(|c| !c.is_ascii_lowercase()));
}

#[test]
fn uuid_ids_name_no_value_for_unknown_parts() {
    assert!(value_for_uuid_id("v5:standard").is_none());
    assert!(value_for_uuid_id("v4:wide").is_none());
    assert!(value_for_uuid_id("v4").is_none());
    assert_eq!(value_for_uuid_id("v1:standard").unwrap().len(), 36);
}
