use devtools::runner::dispatch::{
    copy_value_for_id, match_step, run_target, value_for_id, MatchEvent, MatchStep, RunTarget,
};
use devtools::runner::json::InlineContextCache;
use devtools::runner::media::MediaTool;

fn reply(step: MatchStep) -> Vec<String> {
    match step {
        MatchStep::Reply(items) => items.into_iter().map(|m| m.id).collect(),
        _ => panic!("a reply was expected"),
    }
}

#[test]
fn typed_json_is_answered_first() {
    let mut cache = InlineContextCache::new();
    let ids = reply(match_step("[1,2]", &mut cache, MatchEvent::Start));
    assert_eq!(ids, vec!["json:inline:0"]);
}

#[test]
fn keywords_ask_for_the_clipboard() {
    let mut cache = InlineContextCache::new();
    assert!(matches!(
        match_step("json", &mut cache, MatchEvent::Start),
        MatchStep::ReadClipboardForJson
    ));
    assert!(matches!(
        match_step("cv", &mut cache, MatchEvent::Start),
        MatchStep::ReadClipboardForConvert
    ));
    let ids = reply(match_step(
        "json",
        &mut cache,
        MatchEvent::JsonClipboard(Some("{\"a\":1}".to_owned())),
    ));
    assert_eq!(ids, vec!["json:open"]);
    assert!(matches!(
        match_step("co", &mut cache, MatchEvent::JsonClipboard(None)),
        MatchStep::ReadClipboardForConvert
    ));
    let ids = reply(match_step("co", &mut cache, MatchEvent::ConvertClipboard(Some("a=1".to_owned()))));
    assert_eq!(ids, vec!["convert:open"]);
}

#[test]
fn later_queries_fall_through_in_order() {
    let mut cache = InlineContextCache::new();
    assert_eq!(reply(match_step("ocr", &mut cache, MatchEvent::Start)), vec!["ocr:open"]);
    assert_eq!(
        reply(match_step("1722902400", &mut cache, MatchEvent::Start)).len(),
        4
    );
    assert_eq!(reply(match_step("u7c", &mut cache, MatchEvent::Start)), vec!["uuid:v7:compact"]);
    assert_eq!(reply(match_step("rn8", &mut cache, MatchEvent::Start)), vec!["rand:digits:8"]);
    assert_eq!(reply(match_step("ts", &mut cache, MatchEvent::Start)), vec!["date:unix"]);
    assert!(reply(match_step("zzz", &mut cache, MatchEvent::Start)).is_empty());
}

#[test]
fn run_targets_and_copied_values() {
    assert_eq!(run_target("json:inline:3"), RunTarget::JsonWorkbench);
    assert_eq!(run_target("convert:open"), RunTarget::ConvertWorkbench);
    assert_eq!(run_target("barcode:open"), RunTarget::Media(MediaTool::Barcode));
    assert_eq!(run_target("crypto:open"), RunTarget::Media(MediaTool::Crypto));
    assert_eq!(run_target("color:open"), RunTarget::Media(MediaTool::Color));
    assert_eq!(run_target("date:unix"), RunTarget::CopyValue);
    assert_eq!(
        value_for_id("conv:dt:1722902400:unixms"),
        Some("1722902400000".to_owned())
    );
    assert!(value_for_id("date:nope").is_none());
    assert!(value_for_id("date:unix").unwrap().parse::<i64>().is_ok());
    assert_eq!(value_for_id("rand:lower:12").unwrap().len(), 12);
    assert_eq!(value_for_id("uuid:v4:compact").unwrap().len(), 32);
    assert_eq!(
        copy_value_for_id("other:1"),
        Err("unknown match id: other:1".to_owned())
    );
}
