use devtools::runner::convert::{
    build_convert_matches, parse_convert_query, render, value_for_convert_id, ConvertQuery,
};
use devtools::runner::kmatch::Relevance;

/// Unix seconds of 2024-08-06T00:00:00Z.
const SECS_2024_08_06: i64 = 1_722_902_400;

#[test]
fn parses_seconds_timestamp() {
    assert_eq!(
        parse_convert_query(&SECS_2024_08_06.to_string()),
        Some(ConvertQuery::Timestamp { secs: SECS_2024_08_06 })
    );
    assert!(matches!(
        parse_convert_query("100000000"),
        Some(ConvertQuery::Timestamp { secs: 100_000_000 })
    ));
}

#[test]
fn parses_millis_timestamp() {
    let ms = SECS_2024_08_06 * 1000;
    assert_eq!(
        parse_convert_query(&ms.to_string()),
        Some(ConvertQuery::Timestamp { secs: SECS_2024_08_06 })
    );
}

#[test]
fn rejects_short_or_huge_numbers() {
    assert!(parse_convert_query("12345678").is_none());
    assert!(parse_convert_query("123").is_none());
    assert!(parse_convert_query("99000000000").is_none());
}

#[test]
fn parses_rfc3339_with_various_offsets() {
    assert_eq!(
        parse_convert_query("2024-08-06T00:00:00Z"),
        Some(ConvertQuery::Datetime { secs: SECS_2024_08_06 })
    );
    assert_eq!(
        parse_convert_query("2024-08-06T00:00:00+00:00"),
        Some(ConvertQuery::Datetime { secs: SECS_2024_08_06 })
    );
    assert_eq!(
        parse_convert_query("2024-08-06T08:00:00+08:00"),
        Some(ConvertQuery::Datetime { secs: SECS_2024_08_06 })
    );
}

#[test]
fn parses_naive_datetime_as_local() {
    assert!(matches!(
        parse_convert_query("2024-08-06 12:34:56"),
        Some(ConvertQuery::Datetime { .. })
    ));
    assert!(matches!(
        parse_convert_query("2024-08-06T12:34:56"),
        Some(ConvertQuery::Datetime { .. })
    ));
    assert!(matches!(
        parse_convert_query("2024/08/06 12:34:56"),
        Some(ConvertQuery::Datetime { .. })
    ));
    assert!(matches!(
        parse_convert_query("2024-08-06"),
        Some(ConvertQuery::Datetime { .. })
    ));
}

#[test]
fn rejects_non_datetime_text() {
    assert!(parse_convert_query("hello").is_none());
    assert!(parse_convert_query("2024-13-99").is_none());
    assert!(parse_convert_query("not-a-date").is_none());
}

#[test]
fn render_timestamp_formats() {
    assert_eq!(
        render("ts", SECS_2024_08_06, "iso8601"),
        Some("2024-08-06T00:00:00Z".to_string())
    );
    assert_eq!(
        render("ts", SECS_2024_08_06, "utc"),
        Some("2024-08-06 00:00:00 UTC".to_string())
    );
}

#[test]
fn render_datetime_formats() {
    assert_eq!(render("dt", SECS_2024_08_06, "unix"), Some("1722902400".to_string()));
    assert_eq!(
        render("dt", SECS_2024_08_06, "unixms"),
        Some("1722902400000".to_string())
    );
}

#[test]
fn build_timestamp_matches_order_and_ids() {
    let m = build_convert_matches(&ConvertQuery::Timestamp { secs: SECS_2024_08_06 });
    let ids: Vec<&str> = m.iter().map(|item| item.id.as_str()).collect();
    assert_eq!(
        ids,
        vec![
            "conv:ts:1722902400:local",
            "conv:ts:1722902400:utc",
            "conv:ts:1722902400:rfc3339",
            "conv:ts:1722902400:iso8601",
        ]
    );
}

#[test]
fn build_datetime_matches_has_unix_rows() {
    let m = build_convert_matches(&ConvertQuery::Datetime { secs: SECS_2024_08_06 });
    assert_eq!(m.len(), 3);
    assert_eq!(m[0].id, "conv:dt:1722902400:unix");
    assert_eq!(m[1].id, "conv:dt:1722902400:unixms");
}

#[test]
fn convert_id_roundtrip() {
    assert_eq!(
        value_for_convert_id("ts:1722902400:iso8601"),
        Some("2024-08-06T00:00:00Z".to_string())
    );
    assert_eq!(
        value_for_convert_id("dt:1722902400:unixms"),
        Some("1722902400000".to_string())
    );
    assert!(value_for_convert_id("ts:abc:local").is_none());
    assert!(value_for_convert_id("ts:1722902400:nope").is_none());
}

#[test]
fn running_a_conversion_match_gives_its_value_back() {
    let m = build_convert_matches(&ConvertQuery::Datetime { secs: SECS_2024_08_06 });
    for item in &m {
        let suffix = item.id.strip_prefix("conv:").unwrap();
        assert_eq!(value_for_convert_id(suffix), Some(item.subtext.clone()));
    }
}

#[test]
fn overflowing_milliseconds_drop_only_that_row() {
    let secs = i64::MAX / 100;
    assert!(render("dt", secs, "unixms").is_none());
    let m = build_convert_matches(&ConvertQuery::Datetime { secs: 1_000_000_000_000_000 });
    assert!(m.iter().all(|item| !item.id.ends_with(":unixms")));
}

#[test]
fn conversion_rows_are_ranked_by_their_row() {
    let m = build_convert_matches(&ConvertQuery::Timestamp { secs: 0 });
    assert_eq!(m[3].relevance, Relevance::Ranked(3));
    assert_eq!(m[1].subtext, "1970-01-01 00:00:00 UTC");
    assert_eq!(m[3].subtext, "1970-01-01T00:00:00Z");
}

#[test]
fn digits_only_text_is_never_a_date_and_millis_are_floored() {
    assert!(parse_convert_query("20240806").is_none());
    assert_eq!(
        parse_convert_query("  1722902400999  "),
        Some(ConvertQuery::Timestamp { secs: SECS_2024_08_06 })
    );
    assert_eq!(parse_convert_query("Tue, 6 Aug 2024 00:00:00 +0000"), Some(ConvertQuery::Datetime { secs: SECS_2024_08_06 }));
    assert!(render("xx", 0, "unix").is_none());
    assert!(value_for_convert_id("dt:12").is_none());
}

#[test]
fn local_renderings_carry_their_patterns() {
    let local = render("ts", SECS_2024_08_06, "local").expect("本地时间应可渲染");
    assert_eq!(local.len(), 19);
    let rfc = render("ts", SECS_2024_08_06, "rfc3339").expect("RFC 3339 应可渲染");
    assert_eq!(rfc.len(), 25);
    assert_eq!(&rfc[..19].replace('T', " "), &local);
    assert_eq!(render("dt", SECS_2024_08_06, "local"), Some(local));
}
