use devtools::worker::pages::{dispatch_script, initialization_script, page_for_event, WebPage};
use devtools::worker::registry::ToolEvent;

#[test]
fn events_open_their_pages() {
    assert_eq!(page_for_event(ToolEvent::OpenJson("{}".to_owned())), (WebPage::Json, Some("{}".to_owned())));
    assert_eq!(page_for_event(ToolEvent::OpenColor), (WebPage::Color, None));
    assert_eq!(WebPage::Json.event_name(), "devtools:open-json");
    assert_eq!(WebPage::ImageCompress.event_name(), "devtools:open-image-compress");
    assert_eq!(WebPage::Launcher.event_name(), "devtools:open-launcher");
    assert!(WebPage::Launcher.uses_launcher_size());
    assert!(!WebPage::Settings.uses_launcher_size());
}

#[test]
fn scripts_frame_the_json_texts() {
    assert_eq!(
        dispatch_script("\"devtools:open-json\"", "{\"payload\":\"[]\"}"),
        "window.__DEVTOOLS_DISPATCH__\n? window.__DEVTOOLS_DISPATCH__(\"devtools:open-json\", {\"payload\":\"[]\"})\n: window.__DEVTOOLS_PENDING_EVENTS__.push({ name: \"devtools:open-json\", detail: {\"payload\":\"[]\"} });"
    );
    assert_eq!(
        initialization_script("{\"version\":\"1\"}"),
        "window.__DEVTOOLS_INITIAL_STATE__ = {\"version\":\"1\"};\nwindow.__DEVTOOLS_PENDING_EVENTS__ = [];"
    );
}
