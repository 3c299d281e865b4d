use devtools::model::LanguageMode;
use devtools::worker::platform::{
    language_from_environment, placeholder, portal_shortcut_event_id, resolve_language, tray_change, tray_labels,
    TrayChange,
};
use devtools::worker::hotkey::parse_shortcut;
use devtools::worker::settings::quote_desktop_exec;
use devtools::worker::shortcut::hotkey_to_wayland_trigger;

#[test]
fn linux_detects_supported_system_locales() {
    assert_eq!(
        LanguageMode::from_locale("zh_CN.UTF-8"),
        LanguageMode::SimplifiedChinese
    );
    assert_eq!(
        LanguageMode::from_locale("zh_Hant_HK.UTF-8"),
        LanguageMode::TraditionalChinese
    );
    assert_eq!(
        LanguageMode::from_locale("en_GB.UTF-8"),
        LanguageMode::English
    );
}

#[test]
fn linux_language_environment_prefers_language_over_c_locale() {
    let language = language_from_environment(|name| match name {
        "LANGUAGE" => Some("zh_CN:zh".to_owned()),
        "LC_ALL" => Some("C.UTF-8".to_owned()),
        _ => None,
    });

    assert_eq!(language, LanguageMode::SimplifiedChinese);
}

#[test]
fn linux_language_environment_falls_back_to_english() {
    assert_eq!(language_from_environment(|_| None), LanguageMode::English);
}

#[test]
fn linux_formats_default_shortcuts_for_the_wayland_portal() {
    assert_eq!(
        hotkey_to_wayland_trigger(parse_shortcut("Ctrl+Alt+Space").unwrap().spec()).as_deref(),
        Some("CTRL+ALT+space")
    );
    assert_eq!(
        hotkey_to_wayland_trigger(parse_shortcut("Ctrl+Alt+KeyI").unwrap().spec()).as_deref(),
        Some("CTRL+ALT+i")
    );
}

#[test]
fn shortcut_portal_formats_default_shortcuts_for_the_wayland_portal() {
    assert_eq!(
        hotkey_to_wayland_trigger(parse_shortcut("Ctrl+Alt+Space").unwrap().spec()).as_deref(),
        Some("CTRL+ALT+space")
    );
    assert_eq!(
        hotkey_to_wayland_trigger(parse_shortcut("Ctrl+Alt+KeyI").unwrap().spec()).as_deref(),
        Some("CTRL+ALT+i")
    );
}

#[test]
fn linux_only_dispatches_events_from_the_active_portal_session() {
    assert_eq!(
        portal_shortcut_event_id(Some("/session/current"), "/session/current", "42"),
        Some(42)
    );
    assert_eq!(
        portal_shortcut_event_id(Some("/session/current"), "/session/old", "42"),
        None
    );
    assert_eq!(
        portal_shortcut_event_id(Some("/session/current"), "/session/current", "invalid"),
        None
    );
}

#[test]
fn linux_supplies_all_tray_menu_translations() {
    assert_eq!(
        tray_labels(LanguageMode::SimplifiedChinese).settings,
        "设置"
    );
    assert_eq!(
        tray_labels(LanguageMode::TraditionalChinese).settings,
        "設定"
    );
    assert_eq!(tray_labels(LanguageMode::English).settings, "Settings");
}

#[test]
fn tray_supplies_all_tray_menu_translations() {
    assert_eq!(
        tray_labels(LanguageMode::SimplifiedChinese).settings,
        "设置"
    );
    assert_eq!(
        tray_labels(LanguageMode::TraditionalChinese).settings,
        "設定"
    );
    assert_eq!(tray_labels(LanguageMode::English).settings, "Settings");
}

#[test]
fn linux_desktop_exec_escapes_special_characters() {
    let executable = "/tmp/a\\b\"$`/worker";
    assert_eq!(
        quote_desktop_exec(executable),
        "\"/tmp/a\\\\b\\\"\\$\\`/worker\""
    );
}

#[test]
fn describes_clipboard_only_quick_input_action() {
    assert!(placeholder(LanguageMode::SimplifiedChinese).contains("复制并关闭"));
    assert!(placeholder(LanguageMode::TraditionalChinese).contains("複製並關閉"));
    assert!(placeholder(LanguageMode::English).contains("copy and close"));
}

#[test]
fn chosen_language_wins_over_the_desktop() {
    assert_eq!(
        resolve_language(LanguageMode::System, LanguageMode::TraditionalChinese),
        LanguageMode::TraditionalChinese
    );
    assert_eq!(resolve_language(LanguageMode::English, LanguageMode::SimplifiedChinese), LanguageMode::English);
}

#[test]
fn tray_follows_the_setting() {
    assert_eq!(tray_change(true, false), TrayChange::Create);
    assert_eq!(tray_change(true, true), TrayChange::Relabel);
    assert_eq!(tray_change(false, true), TrayChange::Remove);
    assert_eq!(tray_change(false, false), TrayChange::Remove);
}
