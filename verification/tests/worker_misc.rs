use devtools::worker::color::{color_from_pixel, ColorPickResult, PickedColor, INVALID_PIXEL};
use devtools::worker::history::keep_most_recent;
use devtools::worker::input::{
    byte_index_at_char, character_to_keysym, inside_rounded_square, preedit_contains_attribute,
};
use devtools::worker::native::{
    capabilities_for, check_native_request, checked_output, native_job_gate, version_from_output,
    ConversionDirection, NativeConversionResult, NativeFormat,
};
use devtools::worker::shortcut::{hotkey_to_wayland_trigger, HotKeySpec, KeyCode};

#[test]
fn formats_uppercase_hex_with_zero_padding() {
    let result = ColorPickResult::success("c-1".to_owned(), 1, 10, 255);
    assert_eq!(
        result.color,
        Some(PickedColor { hex: "#010AFF".to_owned(), red: 1, green: 10, blue: 255 })
    );
}

#[test]
fn colour_results_report_cancel_and_error() {
    let cancelled = ColorPickResult::cancelled("c-2".to_owned());
    assert!(cancelled.cancelled && cancelled.color.is_none() && cancelled.error.is_none());
    let failed = ColorPickResult::error("c-3".to_owned(), "portal closed".to_owned());
    assert_eq!(failed.error.as_deref(), Some("portal closed"));
    assert!(!failed.cancelled);
}

#[test]
fn formats_default_shortcuts_for_the_wayland_portal() {
    let ctrl_alt = |key| HotKeySpec { control: true, shift: false, alt: true, logo: false, key };
    assert_eq!(hotkey_to_wayland_trigger(ctrl_alt(KeyCode::Space)).as_deref(), Some("CTRL+ALT+space"));
    assert_eq!(hotkey_to_wayland_trigger(ctrl_alt(KeyCode::KeyI)).as_deref(), Some("CTRL+ALT+i"));
    let all = HotKeySpec { control: true, shift: true, alt: true, logo: true, key: KeyCode::F12 };
    assert_eq!(hotkey_to_wayland_trigger(all).as_deref(), Some("CTRL+SHIFT+ALT+LOGO+F12"));
    assert_eq!(hotkey_to_wayland_trigger(ctrl_alt(KeyCode::Other)), None);
}

#[test]
fn history_keeps_the_most_recent_records() {
    let values: Vec<String> = (0..=500).map(|i| i.to_string()).collect();
    let kept = keep_most_recent(values, 500);
    assert_eq!(kept.len(), 500);
    assert_eq!(kept.first().map(String::as_str), Some("1"));
    assert_eq!(keep_most_recent(vec!["a".to_owned()], 500), vec!["a".to_owned()]);
}

#[test]
fn icon_square_has_transparent_edges_and_an_opaque_centre() {
    assert!(!inside_rounded_square(0, 0));
    assert!(!inside_rounded_square(4, 4));
    assert!(inside_rounded_square(32, 32));
    assert!(inside_rounded_square(4, 32));
    assert!(!inside_rounded_square(60, 32));
}

#[test]
fn converts_character_cursor_to_utf8_byte_index() {
    assert_eq!(byte_index_at_char("a中文", 0), 0);
    assert_eq!(byte_index_at_char("a中文", 1), 1);
    assert_eq!(byte_index_at_char("a中文", 2), 4);
    assert_eq!(byte_index_at_char("a中文", 3), 7);
    assert_eq!(byte_index_at_char("a中文", 99), 7);
}

#[test]
fn removes_only_attributes_owned_by_preedit_range() {
    assert!(preedit_contains_attribute(3, 8, 3, 8));
    assert!(preedit_contains_attribute(3, 8, 4, 7));
    assert!(!preedit_contains_attribute(3, 8, 0, u32::MAX));
    assert!(!preedit_contains_attribute(3, 8, 2, 5));
    assert!(!preedit_contains_attribute(3, 8, 7, 9));
}

#[test]
fn maps_text_characters_to_portal_keysyms() {
    assert_eq!(character_to_keysym('a'), 0x0061);
    assert_eq!(character_to_keysym('A'), 0x0041);
    assert_eq!(character_to_keysym('é'), 0x00e9);
    assert_eq!(character_to_keysym('\n'), 0xff0d);
    assert_eq!(character_to_keysym('\t'), 0xff09);
    assert_eq!(character_to_keysym('中'), 0x0100_0000 | '中' as i32);
}

#[test]
fn native_converter_rules() {
    assert_eq!(NativeFormat::VarExport.as_str(), "php-var-export");
    assert_eq!(ConversionDirection::Stringify.as_str(), "stringify");
    assert_eq!(capabilities_for(Some("8.3.6".to_owned())).native_formats.len(), 3);
    assert!(capabilities_for(None).native_formats.is_empty());
    assert_eq!(version_from_output(" 8.3.6\n"), Some("8.3.6".to_owned()));
    assert_eq!(version_from_output("\n"), None);
    assert_eq!(
        check_native_request("", "[]"),
        Err("native conversion request id is empty".to_owned())
    );
    assert_eq!(
        check_native_request("n-1", &"x".repeat(2 * 1024 * 1024 + 1)),
        Err("input is too large: 2097153 bytes (maximum 2097152)".to_owned())
    );
    assert!(check_native_request("n-1", "[]").is_ok());
    assert_eq!(
        checked_output(vec![0; 4], 3, "ExifTool"),
        Err("ExifTool output exceeds 3 bytes".to_owned())
    );
    assert_eq!(checked_output(vec![1, 2], 3, "x"), Ok(vec![1, 2]));
    let r = NativeConversionResult::success("n-2".to_owned(), "{}".to_owned());
    assert_eq!(r.result.as_deref(), Some("{}"));
    assert!(NativeConversionResult::error("n-3".to_owned(), "no".to_owned()).result.is_none());
}

#[test]
fn windows_pixels_are_read_as_colorref() {
    let result = color_from_pixel("c-2".to_owned(), 0x00FF_0A01);
    assert_eq!(
        result.color,
        Some(PickedColor { hex: "#010AFF".to_owned(), red: 1, green: 10, blue: 255 })
    );
    assert_eq!(result.request_id, "c-2");
    let failed = color_from_pixel("c-3".to_owned(), INVALID_PIXEL);
    assert_eq!(failed.error.as_deref(), Some("GetPixel failed"));
    assert!(failed.color.is_none() && !failed.cancelled);
}

#[test]
fn jobs_without_php_are_answered_at_once() {
    assert!(native_job_gate(true, "job-1").is_none());
    let reply = native_job_gate(false, "job-2").expect("没有 PHP 时应直接回复");
    assert_eq!(reply.request_id, "job-2");
    assert_eq!(reply.result, None);
    assert_eq!(reply.error.as_deref(), Some("PHP CLI is not available"));
}
