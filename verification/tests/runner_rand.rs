use devtools::runner::rand::{
    build_rand_matches, generate_rand, parse_rand_query, value_for_rand_id, RandMode,
};

fn assert_mode(query: &str, mode: RandMode, length: usize) {
    let r = parse_rand_query(query).unwrap_or_else(|| panic!("parse failed: {query}"));
    assert_eq!(r.mode, mode, "{query:?}: wrong mode");
    assert_eq!(r.length, length, "{query:?}: wrong length");
}

#[test]
fn parse_rand_alphanum() {
    assert_mode("r16", RandMode::AlphaNum, 16);
    assert_mode("r 32", RandMode::AlphaNum, 32);
    assert_mode("rand16", RandMode::AlphaNum, 16);
    assert_mode("rand 8", RandMode::AlphaNum, 8);
    assert_mode("R16", RandMode::AlphaNum, 16);
    assert_mode("RAND32", RandMode::AlphaNum, 32);
}

#[test]
fn parse_rand_visible() {
    assert_mode("r+16", RandMode::Visible, 16);
    assert_mode("r+ 32", RandMode::Visible, 32);
    assert_mode("rand+16", RandMode::Visible, 16);
    assert_mode("rand+ 8", RandMode::Visible, 8);
}

#[test]
fn parse_rand_digits() {
    assert_mode("rn16", RandMode::Digits, 16);
    assert_mode("rn 8", RandMode::Digits, 8);
    assert_mode("randn16", RandMode::Digits, 16);
}

#[test]
fn parse_rand_lower() {
    assert_mode("rc16", RandMode::Lower, 16);
    assert_mode("randc16", RandMode::Lower, 16);
}

#[test]
fn parse_rand_upper() {
    assert_mode("rC16", RandMode::Upper, 16);
    assert_mode("randC16", RandMode::Upper, 16);
    assert_mode("RC16", RandMode::Upper, 16);
}

#[test]
fn parse_rand_invalid() {
    assert!(parse_rand_query("r").is_none());
    assert!(parse_rand_query("ra").is_none());
    assert!(parse_rand_query("rand").is_none());
    assert!(parse_rand_query("r0").is_none());
    assert!(parse_rand_query("r1000").is_none());
    assert!(parse_rand_query("xyz").is_none());
    assert!(parse_rand_query("ab").is_none());
}

#[test]
fn generate_rand_correct_length() {
    assert_eq!(generate_rand(&RandMode::Digits, 10).len(), 10);
    assert_eq!(generate_rand(&RandMode::Lower, 20).len(), 20);
    assert_eq!(generate_rand(&RandMode::Upper, 5).len(), 5);
    assert_eq!(generate_rand(&RandMode::AlphaNum, 32).len(), 32);
    assert_eq!(generate_rand(&RandMode::Visible, 64).len(), 64);
}

#[test]
fn generate_rand_chars_in_range() {
    let s = generate_rand(&RandMode::Digits, 100);
    assert!(s.chars().all(|c| c.is_ascii_digit()));

    let s = generate_rand(&RandMode::Lower, 100);
    assert!(s.chars().all(|c| c.is_ascii_lowercase()));

    let s = generate_rand(&RandMode::Upper, 100);
    assert!(s.chars().all(|c| c.is_ascii_uppercase()));

    let s = generate_rand(&RandMode::AlphaNum, 100);
    assert!(s.chars().all(|c| c.is_ascii_alphanumeric()));

    let s = generate_rand(&RandMode::Visible, 100);
    assert!(s.chars().all(|c| c.is_ascii_graphic() || c == ' '));
}

#[test]
fn generate_rand_different_each_call() {
    let a = generate_rand(&RandMode::AlphaNum, 100);
    let b = generate_rand(&RandMode::AlphaNum, 100);
    assert_ne!(a, b);
}

#[test]
fn rand_id_roundtrip() {
    let r = parse_rand_query("r16").unwrap();
    let matches = build_rand_matches(&r);
    let id = &matches[0].id;
    assert!(id.starts_with("rand:alphanum:16"));
    let suffix = id.strip_prefix("rand:").unwrap();
    let value = value_for_rand_id(suffix).unwrap();
    assert_eq!(value.len(), 16);
    assert!(value.chars().all(|c| c.is_ascii_alphanumeric()));
}

#[test]
fn rand_match_title_and_mode_names() {
    let r = parse_rand_query("rn 8").unwrap();
    let matches = build_rand_matches(&r);
    assert_eq!(matches[0].text, "随机数字 (8 位)");
    assert_eq!(matches[0].id, "rand:digits:8");
    assert_eq!(RandMode::from_str("visible"), Some(RandMode::Visible));
    assert_eq!(RandMode::from_str("Visible"), None);
    assert_eq!(RandMode::Upper.as_str(), "upper");
}

#[test]
fn rand_query_length_edges() {
    assert_mode("r 1", RandMode::AlphaNum, 1);
    assert!(parse_rand_query("r1").is_none());
    assert_mode("r256", RandMode::AlphaNum, 256);
    assert!(parse_rand_query("r257").is_none());
    assert!(value_for_rand_id("digits").is_none());
    assert!(value_for_rand_id("octal:4").is_none());
}

#[test]
fn mode_without_length_defaults_to_sixteen() {
    assert_mode("rn", RandMode::Digits, 16);
    assert_mode("rc", RandMode::Lower, 16);
    assert_mode("rC", RandMode::Upper, 16);
    assert_mode("r+", RandMode::Visible, 16);
    assert_mode("rN", RandMode::Digits, 16);
    assert!(parse_rand_query("r1").is_none());
    assert!(parse_rand_query("r").is_none());
    assert_mode("randn", RandMode::Digits, 16);
    assert_mode("randc ", RandMode::Lower, 16);
    assert_mode("randC", RandMode::Upper, 16);
    assert_mode("rand+", RandMode::Visible, 16);
    assert!(parse_rand_query("rnx").is_none());
    assert!(parse_rand_query("rn0").is_none());
}
