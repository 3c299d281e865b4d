use devtools::model::MAX_JSON_BYTES;
use devtools::runner::json::{
    handles_match_id, match_for_clipboard, match_for_inline_query, match_for_query, matches_query,
    workbench_source, InlineContextCache, JsonLookup, WorkbenchSource, INLINE_MATCH_ID_PREFIX,
    MAX_INLINE_CONTEXTS, OPEN_MATCH_ID,
};

#[test]
fn matches_json_keyword_prefix_case_insensitively() {
    assert!(matches_query("j"));
    assert!(matches_query(" JSON "));
    assert!(!matches_query(""));
    assert!(!matches_query("jsonpath"));
}

#[test]
fn builds_match_only_for_valid_json_clipboard() {
    let item = match_for_clipboard("json", "{\"a\":1}").expect("应命中 JSON");

    assert_eq!(item.id, OPEN_MATCH_ID);
    assert_eq!(item.text, "打开 JSON Workbench");
    assert!(match_for_clipboard("json", "not json").is_none());
}

#[test]
fn recognizes_structured_json_directly_from_query() {
    let mut cache = InlineContextCache::default();
    let object =
        match_for_inline_query("{\"name\":\"loveyu\"}", &mut cache).expect("对象 JSON 应自动命中");
    let array = match_for_inline_query("[1,2,3]", &mut cache).expect("数组 JSON 应自动命中");

    assert!(object.id.starts_with(INLINE_MATCH_ID_PREFIX));
    assert!(array.id.starts_with(INLINE_MATCH_ID_PREFIX));
    assert!(!object.id.contains("loveyu"));
    assert_eq!(cache.take(&object.id).as_deref(), Some("{\"name\":\"loveyu\"}"));
    assert_eq!(cache.take(&array.id).as_deref(), Some("[1,2,3]"));
}

#[test]
fn direct_json_detection_does_not_steal_scalar_queries() {
    let mut cache = InlineContextCache::default();

    assert!(match_for_inline_query("1722931200", &mut cache).is_none());
    assert!(match_for_inline_query("true", &mut cache).is_none());
    assert!(match_for_inline_query("null", &mut cache).is_none());
    assert!(match_for_inline_query("\"text\"", &mut cache).is_none());
}

#[test]
fn inline_context_cache_is_bounded_and_single_use() {
    let mut cache = InlineContextCache::default();
    let first_id = cache.insert("{\"index\":0}".to_owned());
    let mut newest_id = String::new();
    for index in 1..=MAX_INLINE_CONTEXTS {
        newest_id = cache.insert(format!("{{\"index\":{index}}}"));
    }

    assert!(cache.take(&first_id).is_none());
    assert!(cache.take(&newest_id).is_some());
    assert!(cache.take(&newest_id).is_none());
}

#[test]
fn rejects_oversized_json_clipboard() {
    let clipboard = format!("\"{}\"", "x".repeat(MAX_JSON_BYTES));

    assert!(match_for_clipboard("json", &clipboard).is_none());
}

#[test]
fn inline_ids_count_up_and_clear_empties_the_cache() {
    let mut cache = InlineContextCache::new();
    assert_eq!(cache.insert("[]".to_owned()), "json:inline:0");
    assert_eq!(cache.insert("{}".to_owned()), "json:inline:1");
    cache.clear();
    assert!(cache.take("json:inline:0").is_none());
    assert_eq!(cache.insert("[1]".to_owned()), "json:inline:2");
    assert!(cache.take("json:inline:02").is_none());
    assert_eq!(cache.take("json:inline:2").as_deref(), Some("[1]"));
}

#[test]
fn json_lookup_steps() {
    let mut cache = InlineContextCache::new();
    assert!(matches!(match_for_query("{\"a\":[1]}", &mut cache), JsonLookup::Found(_)));
    assert!(matches!(match_for_query("js", &mut cache), JsonLookup::CheckClipboard));
    assert!(matches!(match_for_query("jsx", &mut cache), JsonLookup::NoMatch));
}

#[test]
fn workbench_sources_by_match_id() {
    let mut cache = InlineContextCache::new();
    let id = cache.insert("{\"k\":1}".to_owned());
    assert!(matches!(workbench_source(OPEN_MATCH_ID, &mut cache), Ok(WorkbenchSource::Clipboard)));
    match workbench_source(&id, &mut cache) {
        Ok(WorkbenchSource::Inline(text)) => assert_eq!(text, "{\"k\":1}"),
        _ => panic!("the cached JSON should be found"),
    }
    assert_eq!(
        workbench_source(&id, &mut cache).err().as_deref(),
        Some("JSON input context expired")
    );
    assert_eq!(
        workbench_source("uuid:v4:standard", &mut cache).err().as_deref(),
        Some("unknown JSON match id")
    );
    assert!(handles_match_id("json:inline:7"));
    assert!(handles_match_id(OPEN_MATCH_ID));
    assert!(!handles_match_id("json"));
}

#[test]
fn nine_inserts_keep_the_last_eight_each_taken_once() {
    let mut cache = InlineContextCache::default();
    let ids: Vec<String> = (0..9).map(|i| cache.insert(format!("[{i}]"))).collect();
    for (i, id) in ids.iter().enumerate() {
        assert_eq!(id, &format!("json:inline:{i}"));
    }
    assert!(cache.take(&ids[0]).is_none());
    for (i, id) in ids.iter().enumerate().skip(1) {
        assert_eq!(cache.take(id), Some(format!("[{i}]")));
        assert!(cache.take(id).is_none());
    }
}
