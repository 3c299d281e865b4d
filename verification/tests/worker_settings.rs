use devtools::model::{LanguageMode, Settings};
use devtools::worker::platform::{
    autostart_entry, autostart_path, join_path, language_from_environment, placeholder,
    portal_shortcut_event_id, tray_labels,
};
use devtools::worker::settings::{
    config_root, data_root, quote_desktop_exec, shortcuts_differ, validate_settings,
};
use devtools::worker::windows;

#[test]
fn validates_quick_input_dimensions() {
    let mut settings = Settings::default();
    assert!(validate_settings(&settings).is_ok());

    settings.quick_input_width = 239;
    assert_eq!(
        validate_settings(&settings).expect_err("过小宽度应拒绝"),
        "quick input width must be between 240 and 1600"
    );
    settings.quick_input_width = 560;
    settings.quick_input_height = 241;
    assert_eq!(
        validate_settings(&settings).expect_err("过大高度应拒绝"),
        "quick input height must be between 40 and 240"
    );
}

#[test]
fn settings_desktop_exec_escapes_special_characters() {
    let executable = "/tmp/a\\b\"$`/worker";
    assert_eq!(quote_desktop_exec(executable), "\"/tmp/a\\\\b\\\"\\$\\`/worker\"");
}

#[test]
fn mod_desktop_exec_escapes_special_characters() {
    let executable = "/tmp/a\\b\"$`/worker";
    assert_eq!(quote_desktop_exec(executable), "\"/tmp/a\\\\b\\\"\\$\\`/worker\"");
}

#[test]
fn mod_language_environment_prefers_language_over_c_locale() {
    let language = language_from_environment(|name| match name {
        "LANGUAGE" => Some("zh_CN:zh".to_owned()),
        "LC_ALL" => Some("C.UTF-8".to_owned()),
        _ => None,
    });
    assert_eq!(language, LanguageMode::SimplifiedChinese);
}

#[test]
fn mod_language_environment_falls_back_to_english() {
    assert_eq!(language_from_environment(|_| None), LanguageMode::English);
}

#[test]
fn language_environment_skips_empty_values() {
    let language = language_from_environment(|name| match name {
        "LANGUAGE" => Some(String::new()),
        "LC_MESSAGES" => Some("zh_TW.UTF-8".to_owned()),
        "LANG" => Some("en_US.UTF-8".to_owned()),
        _ => None,
    });
    assert_eq!(language, LanguageMode::TraditionalChinese);
}

#[test]
fn shortcut_portal_only_dispatches_events_from_the_active_portal_session() {
    assert_eq!(
        portal_shortcut_event_id(Some("/session/current"), "/session/current", "42"),
        Some(42)
    );
    assert_eq!(portal_shortcut_event_id(Some("/session/current"), "/session/old", "42"), None);
    assert_eq!(
        portal_shortcut_event_id(Some("/session/current"), "/session/current", "invalid"),
        None
    );
    assert_eq!(portal_shortcut_event_id(None, "/session/current", "42"), None);
    assert_eq!(
        portal_shortcut_event_id(Some("/s"), "/s", "4294967296"),
        None
    );
}

#[test]
fn shortcut_changes_are_detected() {
    let previous = Settings::default();
    let mut next = Settings::default();
    assert!(!shortcuts_differ(&previous, &next));
    next.quick_input_width = 800;
    assert!(!shortcuts_differ(&previous, &next));
    next.global_shortcut = "Ctrl+Alt+KeyJ".to_owned();
    assert!(shortcuts_differ(&previous, &next));
}

#[test]
fn autostart_entries_and_paths() {
    assert_eq!(
        autostart_path("/home/u/.config"),
        "/home/u/.config/autostart/org.loveyu.DevTools.desktop"
    );
    assert_eq!(join_path("/home/u/", "a"), "/home/u/a");
    assert_eq!(join_path("", "a"), "a");
    let entry = autostart_entry("/tmp/Dev Tools/devtools-workerd");
    assert!(entry.contains("Exec=\"/tmp/Dev Tools/devtools-workerd\"\n"));
    assert!(entry.contains("Icon=org.loveyu.DevTools\n"));
    assert!(entry.contains("OnlyShowIn=KDE;"));
    let store_entry = devtools::worker::settings::autostart_entry("/tmp/w");
    assert!(store_entry.contains("Icon=applications-development\n"));
    assert_eq!(
        windows::autostart_entry("C:\\Tools\\100%\\worker.exe"),
        "@start \"\" \"C:\\Tools\\100%%\\worker.exe\"\r\n"
    );
    assert_eq!(
        windows::autostart_path("C:\\Users\\u\\AppData\\Roaming"),
        "C:\\Users\\u\\AppData\\Roaming\\Microsoft/Windows/Start Menu/Programs/Startup\\DevTools Worker.cmd"
    );
    assert_eq!(windows::wide("aé😀"), vec![0x61, 0xe9, 0xd83d, 0xde00, 0]);
    assert!(windows::ensure_display_available().is_ok());
    assert!(!windows::request_existing_worker("OpenSettings"));
}

#[test]
fn localized_texts() {
    assert!(placeholder(LanguageMode::SimplifiedChinese).contains("复制并关闭"));
    assert!(placeholder(LanguageMode::TraditionalChinese).contains("複製並關閉"));
    assert!(placeholder(LanguageMode::English).contains("copy and close"));
    assert_eq!(tray_labels(LanguageMode::TraditionalChinese).restart, "重新啟動");
    assert_eq!(tray_labels(LanguageMode::System).settings, "Settings");
}

#[test]
fn base_directories_follow_xdg_then_home() {
    let some = |s: &str| Some(s.to_owned());
    assert_eq!(config_root(some("/xdg/config"), some("/home/u")), Ok("/xdg/config".to_owned()));
    assert_eq!(config_root(some(""), some("/home/u")), Ok("/home/u/.config".to_owned()));
    assert_eq!(config_root(None, some("/home/u/")), Ok("/home/u/.config".to_owned()));
    assert_eq!(data_root(None, some("/home/u")), Ok("/home/u/.local/share".to_owned()));
    assert_eq!(data_root(some("/data"), None), Ok("/data".to_owned()));
    assert_eq!(data_root(None, some("")), Err("HOME is not set".to_owned()));
    assert_eq!(config_root(some(""), None), Err("HOME is not set".to_owned()));
}
