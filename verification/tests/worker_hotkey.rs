use devtools::model::Settings;
use devtools::worker::hotkey::{
    parse_shortcut, portal_shortcuts, select_shortcuts, PortalShortcut, ShortcutAction, ShortcutRegistration,
    NO_HOTKEY,
};
use devtools::worker::platform::{portal_shortcut_event_id, wayland_selected};
use devtools::worker::shortcut::{hotkey_to_wayland_trigger, HotKeySpec, KeyCode};

#[test]
fn parses_portable_shortcut_syntax() {
    assert!(parse_shortcut("Ctrl+Alt+Space").is_ok());
    assert!(parse_shortcut("Shift+KeyQ").is_ok());
}

#[test]
fn rejects_empty_invalid_and_unmodified_shortcuts() {
    assert!(parse_shortcut("").is_err());
    assert!(parse_shortcut("Ctrl+not-a-key").is_err());
    assert_eq!(
        parse_shortcut("Space").expect_err("无修饰键必须拒绝"),
        "global shortcut must contain at least one modifier"
    );
}

#[test]
fn parsed_shortcuts_carry_modifiers_and_key() {
    let hotkey = parse_shortcut("  super+shift+F12 ").unwrap();
    assert!(hotkey.meta && hotkey.shift && !hotkey.control && !hotkey.alt);
    assert_eq!(hotkey.key, "F12");
    assert_eq!(
        hotkey.spec(),
        HotKeySpec { control: false, shift: true, alt: false, logo: true, key: KeyCode::F12 }
    );
    assert_eq!(hotkey_to_wayland_trigger(hotkey.spec()).as_deref(), Some("SHIFT+LOGO+F12"));
    let other = parse_shortcut("Ctrl+IntlRo").unwrap();
    assert_eq!(other.spec().key, KeyCode::Other);
    assert_eq!(hotkey_to_wayland_trigger(other.spec()), None);
}

#[test]
fn selection_reads_enabled_shortcuts_and_refuses_equal_ones() {
    let mut settings = Settings::default();
    let selection = select_shortcuts(&settings).unwrap();
    assert!(selection.launcher.is_none() && selection.quick_input.is_none());
    settings.global_shortcut_enabled = true;
    settings.quick_input_enabled = true;
    let selection = select_shortcuts(&settings).unwrap();
    assert_eq!(selection.launcher.unwrap().key, "Space");
    assert_eq!(selection.quick_input.unwrap().key, "KeyI");
    settings.quick_input_shortcut = "alt+ctrl+space".to_owned();
    assert_eq!(
        select_shortcuts(&settings),
        Err("launcher and quick input shortcuts must be different".to_owned())
    );
    settings.global_shortcut = "Space".to_owned();
    assert_eq!(
        select_shortcuts(&settings),
        Err("global shortcut must contain at least one modifier".to_owned())
    );
    settings.global_shortcut_enabled = false;
    assert!(select_shortcuts(&settings).unwrap().launcher.is_none());
}

#[test]
fn registration_replaces_only_changed_shortcuts() {
    let mut settings = Settings::default();
    settings.global_shortcut_enabled = true;
    let selection = select_shortcuts(&settings).unwrap();
    let launcher_id = selection.launcher.as_ref().unwrap().id;
    let mut registration = ShortcutRegistration::new();
    assert_eq!(registration.action_for(launcher_id), None);
    let next = registration.replacement(&selection).unwrap();
    assert_eq!(next.len(), 1);
    registration.commit(&selection, next);
    assert!(registration.replacement(&selection).is_none());
    assert_eq!(registration.action_for(launcher_id), Some(ShortcutAction::OpenLauncher));
    assert_eq!(registration.action_for(NO_HOTKEY), Some(ShortcutAction::OpenQuickInput));
    registration.forget();
    assert!(registration.replacement(&selection).is_some());
    assert_eq!(registration.action_for(launcher_id), Some(ShortcutAction::OpenLauncher));
    let empty = select_shortcuts(&Settings::default()).unwrap();
    assert!(registration.replacement(&empty).is_none());
}

#[test]
fn portal_shortcuts_carry_id_description_and_trigger() {
    let launcher = parse_shortcut("Ctrl+Alt+Space").unwrap();
    let odd = parse_shortcut("Shift+IntlRo").unwrap();
    let shortcuts = portal_shortcuts(&vec![launcher.clone(), odd.clone()]);
    assert_eq!(
        shortcuts[0],
        PortalShortcut {
            id: launcher.id.to_string(),
            description: "control+alt+Space".to_owned(),
            preferred_trigger: Some("CTRL+ALT+space".to_owned()),
        }
    );
    assert_eq!(shortcuts[1].description, "shift+IntlRo");
    assert_eq!(shortcuts[1].preferred_trigger, None);
    assert_eq!(
        portal_shortcut_event_id(Some("/s"), "/s", &shortcuts[0].id),
        Some(launcher.id)
    );
}

#[test]
fn wayland_is_selected_unless_gtk_is_forced_onto_x11() {
    assert!(wayland_selected(true, None));
    assert!(wayland_selected(true, Some("wayland")));
    assert!(!wayland_selected(true, Some("x11")));
    assert!(!wayland_selected(false, None));
}
