use devtools::model::Settings;
use devtools::worker::lifecycle::{
    existing_worker_requests, settings_step, startup_flags, startup_settings, SettingsAction, SettingsEvent,
    StartupFlags,
};

fn args(values: &[&str]) -> Vec<String> {
    values.iter().map(|value| value.to_string()).collect()
}

#[test]
fn reads_startup_flags_anywhere_in_the_arguments() {
    assert_eq!(
        startup_flags(&args(&["--quick-input", "x", "--settings"])),
        StartupFlags { open_settings: true, open_launcher: false, open_quick_input: true }
    );
    assert_eq!(
        startup_flags(&args(&["--settings=1", "-launcher"])),
        StartupFlags { open_settings: false, open_launcher: false, open_quick_input: false }
    );
}

#[test]
fn asks_a_running_worker_in_a_fixed_order() {
    let all = StartupFlags { open_settings: true, open_launcher: true, open_quick_input: true };
    assert_eq!(existing_worker_requests(all), vec!["OpenSettings", "OpenLauncher", "OpenQuickInput"]);
    let some = StartupFlags { open_settings: false, open_launcher: true, open_quick_input: false };
    assert_eq!(existing_worker_requests(some), vec!["OpenLauncher"]);
}

#[test]
fn startup_hides_failed_tray_and_drops_invalid_shortcuts() {
    let mut loaded = Settings::default();
    loaded.global_shortcut_enabled = true;
    loaded.quick_input_enabled = true;
    let (settings, register) = startup_settings(loaded.clone(), false, true);
    assert!(!settings.show_tray && settings.global_shortcut_enabled && register);
    let (settings, register) = startup_settings(loaded.clone(), true, false);
    assert!(settings.show_tray && !settings.global_shortcut_enabled && !settings.quick_input_enabled);
    assert!(!register);
    assert_eq!(settings.global_shortcut, loaded.global_shortcut);
}

#[test]
fn refused_update_keeps_current_settings() {
    let current = Settings::default();
    let mut next = Settings::default();
    next.quick_input_width = 239;
    let step = settings_step(current.clone(), SettingsEvent::UpdateRequested(next));
    assert_eq!(step.current, current);
    assert_eq!(
        step.action,
        SettingsAction::Reply {
            settings: current,
            error: Some("quick input width must be between 240 and 1600".to_owned()),
        }
    );
}

#[test]
fn shortcut_change_is_adopted_after_registration_and_saving() {
    let current = Settings::default();
    let mut next = Settings::default();
    next.global_shortcut_enabled = true;
    let step = settings_step(current.clone(), SettingsEvent::UpdateRequested(next.clone()));
    assert_eq!(step.current, current);
    assert_eq!(step.action, SettingsAction::RegisterShortcuts(next.clone()));
    let step = settings_step(
        step.current,
        SettingsEvent::ShortcutsApplied { next: next.clone(), result: Ok(()), from_startup: false },
    );
    assert_eq!(
        step.action,
        SettingsAction::Commit { previous: current.clone(), next: next.clone(), adopt: true }
    );
    let step = settings_step(step.current, SettingsEvent::Committed { next: next.clone(), result: Ok(()), adopt: true });
    assert_eq!(step.current, next);
    assert_eq!(step.action, SettingsAction::Reply { settings: next, error: None });
}

#[test]
fn failures_are_reported_and_startup_failure_switches_shortcuts_off() {
    let mut current = Settings::default();
    current.global_shortcut_enabled = true;
    current.quick_input_enabled = true;
    let step = settings_step(
        current.clone(),
        SettingsEvent::ShortcutsApplied { next: current.clone(), result: Err("busy".to_owned()), from_startup: true },
    );
    assert!(!step.current.global_shortcut_enabled && !step.current.quick_input_enabled);
    assert_eq!(
        step.action,
        SettingsAction::Reply { settings: step.current.clone(), error: Some("busy".to_owned()) }
    );
    let mut theme = current.clone();
    theme.show_tray = false;
    let step = settings_step(
        current.clone(),
        SettingsEvent::Committed { next: theme, result: Err("disk full".to_owned()), adopt: true },
    );
    assert_eq!(step.current, current);
    assert_eq!(
        step.action,
        SettingsAction::Reply { settings: current.clone(), error: Some("disk full".to_owned()) }
    );
    let step = settings_step(current.clone(), SettingsEvent::ActionFailed("no worker".to_owned()));
    assert_eq!(step.current, current);
}

#[test]
fn plain_update_is_saved_without_becoming_current() {
    let current = Settings::default();
    let mut next = Settings::default();
    next.autostart = true;
    let step = settings_step(current.clone(), SettingsEvent::UpdateRequested(next.clone()));
    assert_eq!(
        step.action,
        SettingsAction::Commit { previous: current.clone(), next: next.clone(), adopt: false }
    );
    let step = settings_step(step.current, SettingsEvent::Committed { next, result: Ok(()), adopt: false });
    assert_eq!(step.current, current);
    assert_eq!(step.action, SettingsAction::Nothing);
    let step = settings_step(
        current.clone(),
        SettingsEvent::ShortcutsApplied { next: current.clone(), result: Ok(()), from_startup: true },
    );
    assert_eq!(step.action, SettingsAction::Nothing);
}
