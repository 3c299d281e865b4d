use devtools::runner::clock::Moment;
use devtools::runner::kmatch::Relevance;
use devtools::runner::time::{build_matches, build_matches_at, suffixes_for_query, value_of};

/// 2000-01-01T00:00:00Z: Unix 946684800 (seconds) / 946684800000 (milliseconds).
fn fixed() -> (Moment, Moment) {
    let utc = Moment { secs: 946_684_800, nanos: 0 };
    (utc, utc)
}

#[test]
fn timestamp_keywords_are_one_liners() {
    assert_eq!(suffixes_for_query("ts"), vec!["unix"]);
    assert_eq!(suffixes_for_query("unix"), vec!["unix"]);
    assert_eq!(suffixes_for_query("tms"), vec!["unixms"]);
    assert_eq!(suffixes_for_query("tsm"), vec!["unixms"]);
}

#[test]
fn exact_match_beats_prefix() {
    assert_eq!(suffixes_for_query("tsm"), vec!["unixms"]);
    assert_eq!(suffixes_for_query("ts"), vec!["unix"]);
}

#[test]
fn date_time_keyword_shows_full_list() {
    assert_eq!(suffixes_for_query("date").len(), 6);
    assert_eq!(suffixes_for_query("time").len(), 6);
    assert_eq!(suffixes_for_query("da").len(), 6);
    assert_eq!(suffixes_for_query("tim").len(), 6);
}

#[test]
fn unambiguous_prefixes() {
    assert_eq!(suffixes_for_query("tm"), vec!["unixms"]);
    assert_eq!(suffixes_for_query("uni"), vec!["unix"]);
}

#[test]
fn query_is_trimmed_and_lowercased() {
    assert_eq!(suffixes_for_query("  TS  "), vec!["unix"]);
    assert_eq!(suffixes_for_query("Tms"), vec!["unixms"]);
    assert_eq!(suffixes_for_query("DATE").len(), 6);
}

#[test]
fn rejects_too_short_or_unknown() {
    assert!(suffixes_for_query("").is_empty());
    assert!(suffixes_for_query("t").is_empty());
    assert!(suffixes_for_query("xyz").is_empty());
}

#[test]
fn value_of_formats_fixed_time() {
    let (now, utc) = fixed();
    assert_eq!(value_of("unix", &now, &utc), "946684800");
    assert_eq!(value_of("unixms", &now, &utc), "946684800000");
    assert_eq!(value_of("iso8601", &now, &utc), "2000-01-01T00:00:00Z");
    assert_eq!(value_of("utc", &now, &utc), "2000-01-01 00:00:00 UTC");
    assert_eq!(value_of("nope", &now, &utc), "");
}

#[test]
fn now_command_shows_local_and_hhmmss() {
    assert_eq!(suffixes_for_query("now"), vec!["local", "hhmmss"]);
    assert_eq!(suffixes_for_query("no"), vec!["local", "hhmmss"]);
}

#[test]
fn value_of_hhmmss() {
    let (now, utc) = fixed();
    let v = value_of("hhmmss", &now, &utc);
    assert_eq!(v.len(), 8);
    assert_eq!(&v[2..3], ":");
    assert_eq!(&v[5..6], ":");
}

#[test]
fn uppercase_queries_match() {
    assert_eq!(suffixes_for_query("DATE").len(), 6);
    assert_eq!(suffixes_for_query("NOW").len(), 2);
}

#[test]
fn build_matches_orders_like_items_and_prefixes_ids() {
    let matches = build_matches(&["unixms", "unix", "missing"]);
    let ids: Vec<&str> = matches.iter().map(|m| m.id.as_str()).collect();
    assert_eq!(ids, vec!["date:unix", "date:unixms"]);
}

#[test]
fn overlapping_prefixes_merge_without_duplicates() {
    assert_eq!(suffixes_for_query("tsmx"), vec!["unix", "unixms"]);
    assert_eq!(
        suffixes_for_query("date"),
        vec!["local", "unix", "unixms", "rfc3339", "iso8601", "utc"]
    );
}

#[test]
fn matches_at_fixed_moments_rank_rows_in_order() {
    let (now, utc) = fixed();
    let matches = build_matches_at(&["utc", "unix", "local"], &now, &utc);
    let ids: Vec<&str> = matches.iter().map(|m| m.id.as_str()).collect();
    assert_eq!(ids, vec!["date:local", "date:unix", "date:utc"]);
    assert_eq!(matches[1].subtext, "946684800");
    assert_eq!(matches[1].relevance, Relevance::Ranked(1));
    assert_eq!(matches[2].text, "UTC 时间");
    assert_eq!(matches[2].subtext, "2000-01-01 00:00:00 UTC");
    assert_eq!(matches[0].icon, "clock");
}

#[test]
fn milliseconds_keep_the_whole_milliseconds_of_the_moment() {
    let now = Moment { secs: 1, nanos: 999_999_999 };
    assert_eq!(value_of("unixms", &now, &now), "1999");
    let before_epoch = Moment { secs: -1, nanos: 500_000_000 };
    assert_eq!(value_of("unixms", &before_epoch, &before_epoch), "-500");
}

#[test]
fn local_rows_use_their_own_patterns() {
    let (now, utc) = fixed();
    let local = value_of("local", &now, &utc);
    assert_eq!(local.len(), 19);
    assert_eq!(&local[4..5], "-");
    assert_eq!(&local[10..11], " ");
    let rfc = value_of("rfc3339", &now, &utc);
    assert_eq!(rfc.len(), 25);
    assert_eq!(&rfc[10..11], "T");
    assert!(matches!(&rfc[19..20], "+" | "-"));
    assert_eq!(&rfc[..19].replace('T', " "), &local);
}
