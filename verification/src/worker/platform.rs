//! Desktop rules of the Linux and Windows workers: where the autostart entry lives
//! and what it says, the interface language that the environment selects, the
//! localized texts, and the global shortcut events of the XDG portal.

use vstd::prelude::*;
use crate::model::{LanguageMode, locale_language};
use crate::text::{chars_of, parse_u64, push_char, same_text, unsigned_text};
use crate::worker::settings::{exec_escaped, quote_desktop_exec};
use crate::worker::webview::parsed_url;
use crate::text::views;

verus! {

broadcast use vstd::string::group_string_axioms;

/// `base` joined with the relative path `part`, as `Path::join` does on Unix: with a
/// `/` between them unless `base` is empty or already ends with one.
pub open spec fn joined(base: Seq<char>, part: Seq<char>) -> Seq<char> {
    if base.len() == 0 {
        part
    } else if base.last() == '/' {
        base + part
    } else {
        base + seq!['/'] + part
    }
}

/// `base` joined with the relative path `part`.
pub fn join_path(base: &str, part: &str) -> (r: String)
    ensures
        r@ == joined(base@, part@),
{
    let chars = chars_of(base);
    let mut s = String::from_str(base);
    if chars.len() > 0 && chars[chars.len() - 1] != '/' {
        push_char(&mut s, '/');
    }
    s.append(part);
    s
}

/// Name of the autostart entry of the Linux worker.
pub const AUTOSTART_FILE: &'static str = "org.loveyu.DevTools.desktop";

/// Where the Linux worker's autostart entry lives under the configuration root:
/// `<root>/autostart/org.loveyu.DevTools.desktop`.
pub fn autostart_path(config_root: &str) -> (r: String)
    ensures
        r@ == joined(joined(config_root@, "autostart"@), AUTOSTART_FILE@),
{
    let dir = join_path(config_root, "autostart");
    join_path(dir.as_str(), AUTOSTART_FILE)
}

/// The KDE autostart entry of the Linux worker for the quoted executable.
pub open spec fn desktop_autostart_entry(quoted: Seq<char>) -> Seq<char> {
    "[Desktop Entry]\nType=Application\nName=DevTools Worker\nComment=DevTools JSON Workbench GUI worker\nExec="@
        + quoted
        + "\nIcon=org.loveyu.DevTools\nTerminal=false\nNoDisplay=true\nOnlyShowIn=KDE;\nX-KDE-autostart-after=panel\n"@
}

/// The Linux worker's KDE autostart entry: `Exec=` runs the quoted executable.
pub fn autostart_entry(executable: &str) -> (r: String)
    ensures
        r@ == desktop_autostart_entry(seq!['"'] + exec_escaped(executable@) + seq!['"']),
{
    let quoted = quote_desktop_exec(executable);
    let mut s = String::from_str(
        "[Desktop Entry]\nType=Application\nName=DevTools Worker\nComment=DevTools JSON Workbench GUI worker\nExec=",
    );
    s.append(quoted.as_str());
    s.append("\nIcon=org.loveyu.DevTools\nTerminal=false\nNoDisplay=true\nOnlyShowIn=KDE;\nX-KDE-autostart-after=panel\n");
    s
}

/// The environment variables that name the interface language, most specific first.
pub open spec fn language_variable(j: int) -> &'static str {
    if j == 0 {
        "LANGUAGE"
    } else if j == 1 {
        "LC_ALL"
    } else if j == 2 {
        "LC_MESSAGES"
    } else {
        "LANG"
    }
}

/// Whether a variable's value names a locale: it is set and not empty.
pub open spec fn is_set(v: Option<String>) -> bool {
    v matches Some(s) && s@.len() > 0
}

/// Whether `value_of` may answer "not set" for variable `k`.
pub open spec fn may_be_unset<F: Fn(&str) -> Option<String>>(value_of: F, k: int) -> bool {
    exists|o: Option<String>| #[trigger] call_ensures(value_of, (language_variable(k),), o) && !is_set(o)
}

/// Whether `value_of` may answer "not set" for each of the first `n` variables.
pub open spec fn unset_before<F: Fn(&str) -> Option<String>>(value_of: F, n: int) -> bool {
    forall|k: int| 0 <= k < n ==> #[trigger] may_be_unset(value_of, k)
}

/// The interface language that the environment selects: the locale of the first of
/// `LANGUAGE`, `LC_ALL`, `LC_MESSAGES` and `LANG` that is set and not empty, read as
/// `LanguageMode::from_locale` reads it; English where none is.
pub fn language_from_environment<F: Fn(&str) -> Option<String>>(value_of: F) -> (r: LanguageMode)
    requires
        forall|name: &str| call_requires(value_of, (name,)),
    ensures
        (r == LanguageMode::English && unset_before(value_of, 4)) || exists|j: int, v: Option<String>|
            0 <= j < 4 && #[trigger] call_ensures(value_of, (language_variable(j),), v) && is_set(v)
                && unset_before(value_of, j) && r == locale_language(v->0@),
{
    let mut j: usize = 0;
    while j < 4
        invariant
            j <= 4,
            forall|name: &str| call_requires(value_of, (name,)),
            unset_before(value_of, j as int),
        decreases 4 - j,
    {
        let name: &'static str = if j == 0 {
            "LANGUAGE"
        } else if j == 1 {
            "LC_ALL"
        } else if j == 2 {
            "LC_MESSAGES"
        } else {
            "LANG"
        };
        assert(name == language_variable(j as int));
        let v = value_of(name);
        match &v {
            Some(s) => {
                if !s.as_str().is_empty() {
                    let r = LanguageMode::from_locale(s.as_str());
                    assert(call_ensures(value_of, (language_variable(j as int),), v) && is_set(v));
                    return r;
                }
            },
            None => {},
        }
        assert(call_ensures(value_of, (language_variable(j as int),), v) && !is_set(v));
        assert forall|k: int| 0 <= k < j + 1 implies #[trigger] may_be_unset(value_of, k) by {
            if k == j {
                assert(call_ensures(value_of, (language_variable(k),), v) && !is_set(v));
            }
        }
        j = j + 1;
    }
    LanguageMode::English
}

/// The quick input placeholder for an interface language (the desktop's language
/// already resolved; an unresolved `System` reads as English).
pub open spec fn placeholder_text(language: LanguageMode) -> Seq<char> {
    match language {
        LanguageMode::SimplifiedChinese => "输入内容，Enter 复制并关闭，↑↓ 历史"@,
        LanguageMode::TraditionalChinese => "輸入內容，Enter 複製並關閉，↑↓ 歷史"@,
        _ => "Type text, Enter to copy and close, ↑↓ for history"@,
    }
}

/// The quick input placeholder for the resolved interface language.
pub fn placeholder(language: LanguageMode) -> (r: &'static str)
    ensures
        r@ == placeholder_text(language),
{
    match language {
        LanguageMode::SimplifiedChinese => "输入内容，Enter 复制并关闭，↑↓ 历史",
        LanguageMode::TraditionalChinese => "輸入內容，Enter 複製並關閉，↑↓ 歷史",
        LanguageMode::System | LanguageMode::English => "Type text, Enter to copy and close, ↑↓ for history",
    }
}

/// The labels of the tray menu: settings, restart and quit.
#[derive(Debug, Clone, Copy, PartialEq, Eq)]
pub struct TrayLabels {
    pub settings: &'static str,
    pub restart: &'static str,
    pub quit: &'static str,
}

/// The tray menu labels for an interface language.
pub open spec fn tray_label_texts(language: LanguageMode) -> (Seq<char>, Seq<char>, Seq<char>) {
    match language {
        LanguageMode::SimplifiedChinese => ("设置"@, "重启"@, "退出"@),
        LanguageMode::TraditionalChinese => ("設定"@, "重新啟動"@, "結束"@),
        _ => ("Settings"@, "Restart"@, "Quit"@),
    }
}

/// The tray menu labels for the resolved interface language.
pub fn tray_labels(language: LanguageMode) -> (r: TrayLabels)
    ensures
        (r.settings@, r.restart@, r.quit@) == tray_label_texts(language),
{
    match language {
        LanguageMode::SimplifiedChinese => TrayLabels { settings: "设置", restart: "重启", quit: "退出" },
        LanguageMode::TraditionalChinese => TrayLabels { settings: "設定", restart: "重新啟動", quit: "結束" },
        LanguageMode::System | LanguageMode::English => TrayLabels {
            settings: "Settings",
            restart: "Restart",
            quit: "Quit",
        },
    }
}

/// What `str::parse::<u32>` reads.
pub open spec fn parse_u32_spec(s: Seq<char>) -> Option<u32> {
    match unsigned_text(s) {
        Some(v) => if v <= u32::MAX {
            Some(v as u32)
        } else {
            None
        },
        None => None,
    }
}

/// The hotkey id of a portal `Activated`/`Deactivated` signal: only signals of the
/// active portal session count, and the shortcut id must be a `u32`.
pub fn portal_shortcut_event_id(
    active_session_path: Option<&str>,
    event_session_path: &str,
    shortcut_id: &str,
) -> (r: Option<u32>)
    ensures
        r == (if active_session_path matches Some(a) && a@ == event_session_path@ {
            parse_u32_spec(shortcut_id@)
        } else {
            None
        }),
{
    match active_session_path {
        Some(a) => {
            if !same_text(a, event_session_path) {
                return None;
            }
        },
        None => return None,
    }
    match parse_u64(shortcut_id) {
        Some(v) => if v <= 0xffff_ffff {
            Some(v as u32)
        } else {
            None
        },
        None => None,
    }
}

/// Whether the desktop session is a Wayland one that the worker treats as such: a
/// display is named (`WAYLAND_DISPLAY` set and not empty) and GTK is not forced onto
/// X11 (`GDK_BACKEND` is not `x11`; `None` where it is unset or unreadable).
pub fn wayland_selected(display_named: bool, gdk_backend: Option<&str>) -> (r: bool)
    ensures
        r == (display_named && !(gdk_backend matches Some(b) && b@ == "x11"@)),
{
    display_named && match gdk_backend {
        Some(b) => !same_text(b, "x11"),
        None => true,
    }
}

/// Checks a link from the web view before `xdg-open` gets it: it must be a URL with
/// the scheme `http`, `https` or `mailto`; else `invalid url: ` and the `url` crate's
/// message, or `refused to open external url: ` and the link.
pub fn check_external_url(url: &str) -> (r: Result<(), String>)
    ensures
        match parsed_url(url@) {
            None => r matches Err(e) && "invalid url: "@.is_prefix_of(e@),
            Some(u) => if u.scheme == "http"@ || u.scheme == "https"@ || u.scheme == "mailto"@ {
                r is Ok
            } else {
                r matches Err(e) && e@ == "refused to open external url: "@ + url@
            },
        },
{
    let schemes: [&str; 3] = ["http", "https", "mailto"];
    let r = crate::worker::webview::check_external_url(url, &schemes, "refused to open external url: ");
    assert(views(schemes@) =~= seq!["http"@, "https"@, "mailto"@]);
    r
}

/// The interface language to use: the one chosen, or the desktop's (`system`, which
/// the environment selects) where the choice is to follow the desktop.
pub fn resolve_language(language: LanguageMode, system: LanguageMode) -> (r: LanguageMode)
    ensures
        r == (if language == LanguageMode::System {
            system
        } else {
            language
        }),
{
    match language {
        LanguageMode::System => system,
        _ => language,
    }
}

/// What showing or hiding the tray does.
#[derive(Debug, Clone, Copy, PartialEq, Eq, Structural)]
pub enum TrayChange {
    /// Start a tray with the labels of the language.
    Create,
    /// Give the running tray the labels of the language.
    Relabel,
    /// Stop the tray, if one runs.
    Remove,
}

/// What to do with the tray for the setting `visible`, given whether one runs.
pub fn tray_change(visible: bool, running: bool) -> (r: TrayChange)
    ensures
        r == (if !visible {
            TrayChange::Remove
        } else if running {
            TrayChange::Relabel
        } else {
            TrayChange::Create
        }),
{
    if visible && !running {
        TrayChange::Create
    } else if visible {
        TrayChange::Relabel
    } else {
        TrayChange::Remove
    }
}

} // verus!
