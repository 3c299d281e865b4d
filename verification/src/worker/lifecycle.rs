//! The worker's decisions at start-up and on settings changes. The event loop does
//! the work (registering shortcuts, saving files, showing the tray) and hands back
//! what happened; `settings_step` decides what the current settings become and what
//! to do next.

use vstd::prelude::*;
use crate::model::Settings;
use crate::text::same_text;
use crate::worker::settings::{shortcuts_differ, shortcuts_differ_spec, validate_settings, MAX_QUICK_INPUT_HEIGHT,
    MAX_QUICK_INPUT_WIDTH, MIN_QUICK_INPUT_HEIGHT, MIN_QUICK_INPUT_WIDTH};

verus! {

broadcast use vstd::string::group_string_axioms;

/// What the command line asks the worker to open.
#[derive(Debug, Clone, Copy, PartialEq, Eq, Structural)]
pub struct StartupFlags {
    pub open_settings: bool,
    pub open_launcher: bool,
    pub open_quick_input: bool,
}

/// Whether some argument is exactly `flag`.
pub open spec fn has_argument(args: Seq<String>, flag: Seq<char>) -> bool {
    exists|i: int| 0 <= i < args.len() && (#[trigger] args[i])@ == flag
}

fn has_flag(args: &Vec<String>, flag: &str) -> (r: bool)
    ensures
        r == has_argument(args@, flag@),
{
    let mut i: usize = 0;
    while i < args.len()
        invariant
            i <= args@.len(),
            forall|j: int| 0 <= j < i ==> (#[trigger] args@[j])@ != flag@,
        decreases args@.len() - i,
    {
        if same_text(args[i].as_str(), flag) {
            return true;
        }
        i = i + 1;
    }
    false
}

/// What the arguments (the program name left out) ask to open: `--settings`,
/// `--launcher` and `--quick-input`, each anywhere among them.
pub fn startup_flags(args: &Vec<String>) -> (r: StartupFlags)
    ensures
        r.open_settings == has_argument(args@, "--settings"@),
        r.open_launcher == has_argument(args@, "--launcher"@),
        r.open_quick_input == has_argument(args@, "--quick-input"@),
{
    StartupFlags {
        open_settings: has_flag(args, "--settings"),
        open_launcher: has_flag(args, "--launcher"),
        open_quick_input: has_flag(args, "--quick-input"),
    }
}

/// The commands that are sent, in turn, to a worker that already runs: the first
/// that it accepts ends this process.
pub open spec fn worker_requests(flags: StartupFlags) -> Seq<Seq<char>> {
    (if flags.open_settings { seq!["OpenSettings"@] } else { seq![] }) + (if flags.open_launcher {
        seq!["OpenLauncher"@]
    } else {
        seq![]
    }) + (if flags.open_quick_input { seq!["OpenQuickInput"@] } else { seq![] })
}

/// The commands to try on a worker that already runs, in order.
pub fn existing_worker_requests(flags: StartupFlags) -> (r: Vec<&'static str>)
    ensures
        r@.map_values(|s: &'static str| s@) == worker_requests(flags),
{
    let mut r: Vec<&'static str> = Vec::new();
    if flags.open_settings {
        r.push("OpenSettings");
    }
    if flags.open_launcher {
        r.push("OpenLauncher");
    }
    if flags.open_quick_input {
        r.push("OpenQuickInput");
    }
    assert(r@.map_values(|s: &'static str| s@) =~= worker_requests(flags));
    r
}

/// The settings with both shortcuts switched off, all else kept.
pub open spec fn without_shortcuts(s: Settings) -> Settings {
    Settings {
        show_tray: s.show_tray,
        autostart: s.autostart,
        global_shortcut_enabled: false,
        global_shortcut: s.global_shortcut,
        quick_input_enabled: false,
        quick_input_shortcut: s.quick_input_shortcut,
        quick_input_width: s.quick_input_width,
        quick_input_height: s.quick_input_height,
        theme: s.theme,
        language: s.language,
    }
}

/// The settings with the tray hidden, all else kept.
pub open spec fn without_tray(s: Settings) -> Settings {
    Settings {
        show_tray: false,
        autostart: s.autostart,
        global_shortcut_enabled: s.global_shortcut_enabled,
        global_shortcut: s.global_shortcut,
        quick_input_enabled: s.quick_input_enabled,
        quick_input_shortcut: s.quick_input_shortcut,
        quick_input_width: s.quick_input_width,
        quick_input_height: s.quick_input_height,
        theme: s.theme,
        language: s.language,
    }
}

fn switch_off_shortcuts(s: Settings) -> (r: Settings)
    ensures
        r == without_shortcuts(s),
{
    let mut r = s;
    r.global_shortcut_enabled = false;
    r.quick_input_enabled = false;
    r
}

/// The settings the worker starts with, from those it loaded: the tray is hidden
/// where it could not be shown, and both shortcuts are switched off where they are not
/// valid. The shortcuts are registered (in the background) only where they are valid.
pub fn startup_settings(loaded: Settings, tray_shown: bool, shortcuts_valid: bool) -> (r: (Settings, bool))
    ensures
        r.0 == ({
            let t = if tray_shown {
                loaded
            } else {
                without_tray(loaded)
            };
            if shortcuts_valid {
                t
            } else {
                without_shortcuts(t)
            }
        }),
        r.1 == shortcuts_valid,
{
    let mut s = loaded;
    if !tray_shown {
        s.show_tray = false;
    }
    if !shortcuts_valid {
        s = switch_off_shortcuts(s);
    }
    (s, shortcuts_valid)
}

/// What happened that concerns the settings.
#[derive(Debug)]
pub enum SettingsEvent {
    /// The settings page asks for `next`.
    UpdateRequested(Settings),
    /// Registering the shortcuts of `next` finished; `from_startup` where the worker
    /// registered the settings it started with.
    ShortcutsApplied { next: Settings, result: Result<(), String>, from_startup: bool },
    /// Saving `next` and showing the tray as it says finished; `adopt` where `next`
    /// becomes the current settings on success.
    Committed { next: Settings, result: Result<(), String>, adopt: bool },
    /// The action could not be started.
    ActionFailed(String),
}

/// What to do next.
#[derive(Debug, PartialEq, Eq)]
pub enum SettingsAction {
    /// Nothing.
    Nothing,
    /// Register the shortcuts of the settings in the background; the result comes
    /// back as `ShortcutsApplied` that is not from start-up.
    RegisterShortcuts(Settings),
    /// Save `next` (the autostart entry from `previous` to `next`) and show the tray as
    /// `next` says; the result comes back as `Committed` with `adopt`.
    Commit { previous: Settings, next: Settings, adopt: bool },
    /// Send the settings to the settings page, with the error if there is one.
    Reply { settings: Settings, error: Option<String> },
}

/// An action, its error as plain text.
pub enum SettingsActionView {
    Nothing,
    RegisterShortcuts(Settings),
    Commit { previous: Settings, next: Settings, adopt: bool },
    Reply { settings: Settings, error: Option<Seq<char>> },
}

impl View for SettingsAction {
    type V = SettingsActionView;

    open spec fn view(&self) -> SettingsActionView {
        match self {
            SettingsAction::Nothing => SettingsActionView::Nothing,
            SettingsAction::RegisterShortcuts(s) => SettingsActionView::RegisterShortcuts(*s),
            SettingsAction::Commit { previous, next, adopt } => SettingsActionView::Commit {
                previous: *previous,
                next: *next,
                adopt: *adopt,
            },
            SettingsAction::Reply { settings, error } => SettingsActionView::Reply {
                settings: *settings,
                error: match error {
                    Some(e) => Some(e@),
                    None => None,
                },
            },
        }
    }
}

/// An event, its errors as plain text.
pub enum SettingsEventView {
    UpdateRequested(Settings),
    ShortcutsApplied { next: Settings, error: Option<Seq<char>>, from_startup: bool },
    Committed { next: Settings, error: Option<Seq<char>>, adopt: bool },
    ActionFailed(Seq<char>),
}

/// The error of an outcome as plain text.
pub open spec fn outcome_error(r: Result<(), String>) -> Option<Seq<char>> {
    match r {
        Ok(()) => None,
        Err(e) => Some(e@),
    }
}

impl View for SettingsEvent {
    type V = SettingsEventView;

    open spec fn view(&self) -> SettingsEventView {
        match self {
            SettingsEvent::UpdateRequested(s) => SettingsEventView::UpdateRequested(*s),
            SettingsEvent::ShortcutsApplied { next, result, from_startup } => SettingsEventView::ShortcutsApplied {
                next: *next,
                error: outcome_error(*result),
                from_startup: *from_startup,
            },
            SettingsEvent::Committed { next, result, adopt } => SettingsEventView::Committed {
                next: *next,
                error: outcome_error(*result),
                adopt: *adopt,
            },
            SettingsEvent::ActionFailed(e) => SettingsEventView::ActionFailed(e@),
        }
    }
}

/// Why settings are refused, if they are: the quick input width must be from 240 to
/// 1600 and its height from 40 to 240, the width checked first.
pub open spec fn settings_error(s: Settings) -> Option<Seq<char>> {
    if !(MIN_QUICK_INPUT_WIDTH <= s.quick_input_width <= MAX_QUICK_INPUT_WIDTH) {
        Some("quick input width must be between 240 and 1600"@)
    } else if !(MIN_QUICK_INPUT_HEIGHT <= s.quick_input_height <= MAX_QUICK_INPUT_HEIGHT) {
        Some("quick input height must be between 40 and 240"@)
    } else {
        None
    }
}

/// What the current settings become on an event, and what to do next:
/// - a requested update is refused (with the reason) where the settings are invalid;
///   else its shortcuts are registered first where they changed, and otherwise it is
///   saved at once without becoming current;
/// - registered shortcuts lead to saving the settings, which then become current,
///   except at start-up, where there is nothing to save;
/// - a failed registration is reported, and at start-up switches both shortcuts off;
/// - a saving that adopts its settings makes them current and reports them; one that
///   does not adopt them leaves all as it is; a failed saving is reported;
/// - an action that could not be started is reported.
pub open spec fn settings_step_spec(current: Settings, event: SettingsEventView) -> (Settings, SettingsActionView) {
    match event {
        SettingsEventView::UpdateRequested(next) => match settings_error(next) {
            Some(m) => (current, SettingsActionView::Reply { settings: current, error: Some(m) }),
            None => if shortcuts_differ_spec(current, next) {
                (current, SettingsActionView::RegisterShortcuts(next))
            } else {
                (current, SettingsActionView::Commit { previous: current, next, adopt: false })
            },
        },
        SettingsEventView::ShortcutsApplied { next, error, from_startup } => match error {
            None => if from_startup {
                (current, SettingsActionView::Nothing)
            } else {
                (current, SettingsActionView::Commit { previous: current, next, adopt: true })
            },
            Some(e) => {
                let c = if from_startup {
                    without_shortcuts(current)
                } else {
                    current
                };
                (c, SettingsActionView::Reply { settings: c, error: Some(e) })
            },
        },
        SettingsEventView::Committed { next, error, adopt } => match error {
            None => if adopt {
                (next, SettingsActionView::Reply { settings: next, error: None })
            } else {
                (current, SettingsActionView::Nothing)
            },
            Some(e) => (current, SettingsActionView::Reply { settings: current, error: Some(e) }),
        },
        SettingsEventView::ActionFailed(e) => (current, SettingsActionView::Reply { settings: current, error: Some(e) }),
    }
}

/// The current settings after an event, and what to do next.
#[derive(Debug)]
pub struct SettingsStep {
    pub current: Settings,
    pub action: SettingsAction,
}

/// Decides what an event does to the current settings and what to do next.
pub fn settings_step(current: Settings, event: SettingsEvent) -> (r: SettingsStep)
    ensures
        (r.current, r.action@) == settings_step_spec(current, event@),
{
    match event {
        SettingsEvent::UpdateRequested(next) => match validate_settings(&next) {
            Err(e) => {
                let settings = current.duplicate();
                SettingsStep { current, action: SettingsAction::Reply { settings, error: Some(e) } }
            },
            Ok(()) => if shortcuts_differ(&current, &next) {
                SettingsStep { current, action: SettingsAction::RegisterShortcuts(next) }
            } else {
                let previous = current.duplicate();
                SettingsStep { current, action: SettingsAction::Commit { previous, next, adopt: false } }
            },
        },
        SettingsEvent::ShortcutsApplied { next, result, from_startup } => match result {
            Ok(()) => if from_startup {
                SettingsStep { current, action: SettingsAction::Nothing }
            } else {
                let previous = current.duplicate();
                SettingsStep { current, action: SettingsAction::Commit { previous, next, adopt: true } }
            },
            Err(e) => {
                let c = if from_startup {
                    switch_off_shortcuts(current)
                } else {
                    current
                };
                let settings = c.duplicate();
                SettingsStep { current: c, action: SettingsAction::Reply { settings, error: Some(e) } }
            },
        },
        SettingsEvent::Committed { next, result, adopt } => match result {
            Ok(()) => if adopt {
                let settings = next.duplicate();
                SettingsStep { current: next, action: SettingsAction::Reply { settings, error: None } }
            } else {
                SettingsStep { current, action: SettingsAction::Nothing }
            },
            Err(e) => {
                let settings = current.duplicate();
                SettingsStep { current, action: SettingsAction::Reply { settings, error: Some(e) } }
            },
        },
        SettingsEvent::ActionFailed(e) => {
            let settings = current.duplicate();
            SettingsStep { current, action: SettingsAction::Reply { settings, error: Some(e) } }
        },
    }
}

/// A refused update leaves the current settings as they are and reports why, with
/// the settings that stay current.
pub proof fn lemma_refused_update_keeps_settings(current: Settings, next: Settings)
    requires
        settings_error(next) is Some,
    ensures
        settings_step_spec(current, SettingsEventView::UpdateRequested(next)) == (
            current,
            SettingsActionView::Reply { settings: current, error: settings_error(next) },
        ),
{
}

/// Settings whose shortcuts changed become current only after their shortcuts were
/// registered and they were saved: the request and the registration leave the current
/// settings unchanged, a successful saving makes them current, and a failed
/// registration or saving keeps the old ones.
pub proof fn lemma_shortcut_change_adopted_after_registration_and_saving(
    current: Settings,
    next: Settings,
    registration_error: Option<Seq<char>>,
    saving_error: Option<Seq<char>>,
)
    requires
        settings_error(next) is None,
        shortcuts_differ_spec(current, next),
    ensures
        settings_step_spec(current, SettingsEventView::UpdateRequested(next)) == (
            current,
            SettingsActionView::RegisterShortcuts(next),
        ),
        registration_error is Some ==> settings_step_spec(
            current,
            SettingsEventView::ShortcutsApplied { next, error: registration_error, from_startup: false },
        ).0 == current,
        registration_error is None ==> settings_step_spec(
            current,
            SettingsEventView::ShortcutsApplied { next, error: None, from_startup: false },
        ) == (current, SettingsActionView::Commit { previous: current, next, adopt: true }),
        settings_step_spec(current, SettingsEventView::Committed { next, error: saving_error, adopt: true }).0 == (
            if saving_error is None {
                next
            } else {
                current
            }),
{
}

/// Settings whose shortcuts did not change are saved at once and do not become
/// current by that saving.
pub proof fn lemma_plain_update_saved_without_adopting(current: Settings, next: Settings, error: Option<Seq<char>>)
    requires
        settings_error(next) is None,
        !shortcuts_differ_spec(current, next),
    ensures
        settings_step_spec(current, SettingsEventView::UpdateRequested(next)) == (
            current,
            SettingsActionView::Commit { previous: current, next, adopt: false },
        ),
        settings_step_spec(current, SettingsEventView::Committed { next, error, adopt: false }).0 == current,
{
}

/// The current settings change only where a saving that adopts its settings succeeds
/// (they become those settings), or where the start-up registration fails (both
/// shortcuts are switched off, all else kept).
pub proof fn lemma_current_changes_only_by_adoption_or_startup_failure(current: Settings, event: SettingsEventView)
    ensures
        settings_step_spec(current, event).0 == current || (event matches SettingsEventView::Committed {
            next,
            error: None,
            adopt: true,
        } && settings_step_spec(current, event).0 == next) || (event matches SettingsEventView::ShortcutsApplied {
            error: Some(_),
            from_startup: true,
            ..
        } && settings_step_spec(current, event).0 == without_shortcuts(current)),
{
}

} // verus!
