//! Settings rules of the worker: which settings are valid, when shortcuts must be
//! registered again, the KDE autostart entry that the settings store writes, and the
//! directories under which the settings and the history are kept.

use vstd::prelude::*;
use crate::model::Settings;
use crate::text::{chars_of, push_char, same_text};

verus! {

broadcast use vstd::string::group_string_axioms;

/// Narrowest and widest quick input window.
pub const MIN_QUICK_INPUT_WIDTH: u32 = 240;

pub const MAX_QUICK_INPUT_WIDTH: u32 = 1600;

/// Lowest and highest quick input window.
pub const MIN_QUICK_INPUT_HEIGHT: u32 = 40;

pub const MAX_QUICK_INPUT_HEIGHT: u32 = 240;

/// Checks the quick input window size: the width from 240 to 1600 and the height from
/// 40 to 240, the width checked first.
pub fn validate_settings(settings: &Settings) -> (r: Result<(), String>)
    ensures
        !(MIN_QUICK_INPUT_WIDTH <= settings.quick_input_width <= MAX_QUICK_INPUT_WIDTH) ==> (r matches Err(e)
            && e@ == "quick input width must be between 240 and 1600"@),
        (MIN_QUICK_INPUT_WIDTH <= settings.quick_input_width <= MAX_QUICK_INPUT_WIDTH) && !(
        MIN_QUICK_INPUT_HEIGHT <= settings.quick_input_height <= MAX_QUICK_INPUT_HEIGHT) ==> (r matches Err(e)
            && e@ == "quick input height must be between 40 and 240"@),
        (MIN_QUICK_INPUT_WIDTH <= settings.quick_input_width <= MAX_QUICK_INPUT_WIDTH) && (MIN_QUICK_INPUT_HEIGHT
            <= settings.quick_input_height <= MAX_QUICK_INPUT_HEIGHT) ==> r is Ok,
{
    if !(MIN_QUICK_INPUT_WIDTH <= settings.quick_input_width && settings.quick_input_width
        <= MAX_QUICK_INPUT_WIDTH) {
        return Err(String::from_str("quick input width must be between 240 and 1600"));
    }
    if !(MIN_QUICK_INPUT_HEIGHT <= settings.quick_input_height && settings.quick_input_height
        <= MAX_QUICK_INPUT_HEIGHT) {
        return Err(String::from_str("quick input height must be between 40 and 240"));
    }
    Ok(())
}

/// Whether two settings differ in their shortcuts: the global shortcut or quick
/// input switched on or off, or either key changed.
pub open spec fn shortcuts_differ_spec(previous: Settings, next: Settings) -> bool {
    ||| previous.global_shortcut_enabled != next.global_shortcut_enabled
    ||| previous.global_shortcut@ != next.global_shortcut@
    ||| previous.quick_input_enabled != next.quick_input_enabled
    ||| previous.quick_input_shortcut@ != next.quick_input_shortcut@
}

/// Whether the shortcut settings changed, so that the shortcuts must be registered
/// again.
pub fn shortcuts_differ(previous: &Settings, next: &Settings) -> (r: bool)
    ensures
        r == shortcuts_differ_spec(*previous, *next),
{
    previous.global_shortcut_enabled != next.global_shortcut_enabled || !same_text(
        previous.global_shortcut.as_str(),
        next.global_shortcut.as_str(),
    ) || previous.quick_input_enabled != next.quick_input_enabled || !same_text(
        previous.quick_input_shortcut.as_str(),
        next.quick_input_shortcut.as_str(),
    )
}

/// Whether `c` needs a backslash before it in a quoted `Exec=` value.
pub open spec fn exec_special(c: char) -> bool {
    c == '\\' || c == '"' || c == '`' || c == '$'
}

/// `s` with a backslash before each backslash, double quote, backquote and dollar.
pub open spec fn exec_escaped(s: Seq<char>) -> Seq<char>
    decreases s.len(),
{
    if s.len() == 0 {
        seq![]
    } else {
        let rest = exec_escaped(s.drop_last());
        if exec_special(s.last()) {
            rest + seq!['\\', s.last()]
        } else {
            rest.push(s.last())
        }
    }
}

/// The path of the executable, escaped and in double quotes, as a desktop entry's
/// `Exec=` value.
pub fn quote_desktop_exec(executable: &str) -> (r: String)
    ensures
        r@ == seq!['"'] + exec_escaped(executable@) + seq!['"'],
{
    let chars = chars_of(executable);
    let mut out = String::new();
    push_char(&mut out, '"');
    let mut i: usize = 0;
    while i < chars.len()
        invariant
            i <= chars.len(),
            chars@ == executable@,
            out@ == seq!['"'] + exec_escaped(chars@.take(i as int)),
        decreases chars.len() - i,
    {
        let c = chars[i];
        let ghost before = out@;
        assert(chars@.take(i + 1).drop_last() =~= chars@.take(i as int));
        if c == '\\' || c == '"' || c == '`' || c == '$' {
            push_char(&mut out, '\\');
            push_char(&mut out, c);
            assert(out@ =~= seq!['"'] + exec_escaped(chars@.take(i + 1)));
        } else {
            push_char(&mut out, c);
            assert(out@ =~= seq!['"'] + exec_escaped(chars@.take(i + 1)));
        }
        i = i + 1;
    }
    assert(chars@.take(chars.len() as int) =~= chars@);
    push_char(&mut out, '"');
    out
}

/// The KDE autostart entry that the settings store writes for the executable.
pub open spec fn store_autostart_entry(quoted: Seq<char>) -> Seq<char> {
    "[Desktop Entry]\nType=Application\nName=DevTools Worker\nComment=DevTools JSON Workbench GUI worker\nExec="@
        + quoted
        + "\nIcon=applications-development\nTerminal=false\nNoDisplay=true\nOnlyShowIn=KDE;\nX-KDE-autostart-after=panel\n"@
}

/// The KDE autostart entry that the settings store writes: `Exec=` runs the quoted
/// executable; the entry shows only in KDE, after the panel.
pub fn autostart_entry(executable: &str) -> (r: String)
    ensures
        r@ == store_autostart_entry(seq!['"'] + exec_escaped(executable@) + seq!['"']),
{
    let quoted = quote_desktop_exec(executable);
    let mut s = String::from_str(
        "[Desktop Entry]\nType=Application\nName=DevTools Worker\nComment=DevTools JSON Workbench GUI worker\nExec=",
    );
    s.append(quoted.as_str());
    s.append(
        "\nIcon=applications-development\nTerminal=false\nNoDisplay=true\nOnlyShowIn=KDE;\nX-KDE-autostart-after=panel\n",
    );
    s
}

/// `base` joined with the relative path `rel`, as `Path::join` joins them: a `/`
/// between them unless `base` already ends with one.
pub open spec fn joined_path(base: Seq<char>, rel: Seq<char>) -> Seq<char> {
    if base.len() > 0 && base.last() == '/' {
        base + rel
    } else {
        base + "/"@ + rel
    }
}

/// The directory that an XDG base variable names, else `rel` under the home
/// directory; unset and empty variables count alike. `None` when neither is set.
pub open spec fn base_directory(xdg: Option<Seq<char>>, home: Option<Seq<char>>, rel: Seq<char>) -> Option<
    Seq<char>,
> {
    if xdg matches Some(x) && x.len() > 0 {
        xdg
    } else if home matches Some(h) && h.len() > 0 {
        Some(joined_path(home->0, rel))
    } else {
        None
    }
}

/// The error when neither the XDG variable nor `HOME` is set.
pub const HOME_NOT_SET: &'static str = "HOME is not set";

fn base_directory_of(xdg: Option<String>, home: Option<String>, rel: &str) -> (r: Result<String, String>)
    ensures
        match base_directory(
            match xdg {
                Some(x) => Some(x@),
                None => None,
            },
            match home {
                Some(h) => Some(h@),
                None => None,
            },
            rel@,
        ) {
            Some(p) => r matches Ok(t) && t@ == p,
            None => r matches Err(e) && e@ == HOME_NOT_SET@,
        },
{
    if let Some(x) = xdg {
        if x.unicode_len() > 0 {
            return Ok(x);
        }
    }
    match home {
        Some(h) => {
            let chars = chars_of(h.as_str());
            let n = chars.len();
            if n == 0 {
                return Err(String::from_str(HOME_NOT_SET));
            }
            let mut path = h;
            if chars[n - 1] != '/' {
                path.append("/");
            }
            path.append(rel);
            Ok(path)
        },
        None => Err(String::from_str(HOME_NOT_SET)),
    }
}

/// Where the settings and the autostart entry live: `$XDG_CONFIG_HOME`, else
/// `$HOME/.config`; `HOME is not set` when neither is set (an empty variable counts
/// as unset).
pub fn config_root(xdg_config_home: Option<String>, home: Option<String>) -> (r: Result<String, String>)
    ensures
        match base_directory(
            match xdg_config_home {
                Some(x) => Some(x@),
                None => None,
            },
            match home {
                Some(h) => Some(h@),
                None => None,
            },
            ".config"@,
        ) {
            Some(p) => r matches Ok(t) && t@ == p,
            None => r matches Err(e) && e@ == HOME_NOT_SET@,
        },
{
    base_directory_of(xdg_config_home, home, ".config")
}

/// Where the quick input history lives: `$XDG_DATA_HOME`, else `$HOME/.local/share`;
/// `HOME is not set` when neither is set (an empty variable counts as unset).
pub fn data_root(xdg_data_home: Option<String>, home: Option<String>) -> (r: Result<String, String>)
    ensures
        match base_directory(
            match xdg_data_home {
                Some(x) => Some(x@),
                None => None,
            },
            match home {
                Some(h) => Some(h@),
                None => None,
            },
            ".local/share"@,
        ) {
            Some(p) => r matches Ok(t) && t@ == p,
            None => r matches Err(e) && e@ == HOME_NOT_SET@,
        },
{
    base_directory_of(xdg_data_home, home, ".local/share")
}

} // verus!
