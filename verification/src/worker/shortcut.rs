//! The XDG GlobalShortcuts portal's trigger names for hotkeys: modifiers in a fixed
//! order, then the key's keysym name.

use vstd::prelude::*;
use crate::text::same_text;

verus! {

broadcast use vstd::string::group_string_axioms;

/// A keyboard key, as the W3C `code` names it; `Other` for the keys that the portal
/// has no name for here.
#[derive(Debug, Clone, Copy, PartialEq, Eq, Structural)]
pub enum KeyCode {
    KeyA,
    KeyB,
    KeyC,
    KeyD,
    KeyE,
    KeyF,
    KeyG,
    KeyH,
    KeyI,
    KeyJ,
    KeyK,
    KeyL,
    KeyM,
    KeyN,
    KeyO,
    KeyP,
    KeyQ,
    KeyR,
    KeyS,
    KeyT,
    KeyU,
    KeyV,
    KeyW,
    KeyX,
    KeyY,
    KeyZ,
    Backslash,
    BracketLeft,
    BracketRight,
    Backquote,
    Comma,
    Digit0,
    Digit1,
    Digit2,
    Digit3,
    Digit4,
    Digit5,
    Digit6,
    Digit7,
    Digit8,
    Digit9,
    Equal,
    Minus,
    Period,
    Quote,
    Semicolon,
    Slash,
    Backspace,
    CapsLock,
    Enter,
    Space,
    Tab,
    Delete,
    End,
    Home,
    Insert,
    PageDown,
    PageUp,
    ArrowDown,
    ArrowLeft,
    ArrowRight,
    ArrowUp,
    Numpad0,
    Numpad1,
    Numpad2,
    Numpad3,
    Numpad4,
    Numpad5,
    Numpad6,
    Numpad7,
    Numpad8,
    Numpad9,
    NumpadAdd,
    NumpadDecimal,
    NumpadDivide,
    NumpadMultiply,
    NumpadSubtract,
    Escape,
    PrintScreen,
    ScrollLock,
    NumLock,
    F1,
    F2,
    F3,
    F4,
    F5,
    F6,
    F7,
    F8,
    F9,
    F10,
    F11,
    F12,
    AudioVolumeDown,
    AudioVolumeMute,
    AudioVolumeUp,
    MediaPlay,
    MediaPause,
    MediaStop,
    MediaTrackNext,
    MediaTrackPrevious,
    Pause,
    Other,
}

/// The key that a W3C `code` name (such as `KeyI` or `Space`) names; `Other` for
/// any other name.
pub open spec fn key_of_code_name(name: Seq<char>) -> KeyCode {
    if name == "KeyA"@ {
        KeyCode::KeyA
    } else if name == "KeyB"@ {
        KeyCode::KeyB
    } else if name == "KeyC"@ {
        KeyCode::KeyC
    } else if name == "KeyD"@ {
        KeyCode::KeyD
    } else if name == "KeyE"@ {
        KeyCode::KeyE
    } else if name == "KeyF"@ {
        KeyCode::KeyF
    } else if name == "KeyG"@ {
        KeyCode::KeyG
    } else if name == "KeyH"@ {
        KeyCode::KeyH
    } else if name == "KeyI"@ {
        KeyCode::KeyI
    } else if name == "KeyJ"@ {
        KeyCode::KeyJ
    } else if name == "KeyK"@ {
        KeyCode::KeyK
    } else if name == "KeyL"@ {
        KeyCode::KeyL
    } else if name == "KeyM"@ {
        KeyCode::KeyM
    } else if name == "KeyN"@ {
        KeyCode::KeyN
    } else if name == "KeyO"@ {
        KeyCode::KeyO
    } else if name == "KeyP"@ {
        KeyCode::KeyP
    } else if name == "KeyQ"@ {
        KeyCode::KeyQ
    } else if name == "KeyR"@ {
        KeyCode::KeyR
    } else if name == "KeyS"@ {
        KeyCode::KeyS
    } else if name == "KeyT"@ {
        KeyCode::KeyT
    } else if name == "KeyU"@ {
        KeyCode::KeyU
    } else if name == "KeyV"@ {
        KeyCode::KeyV
    } else if name == "KeyW"@ {
        KeyCode::KeyW
    } else if name == "KeyX"@ {
        KeyCode::KeyX
    } else if name == "KeyY"@ {
        KeyCode::KeyY
    } else if name == "KeyZ"@ {
        KeyCode::KeyZ
    } else if name == "Backslash"@ {
        KeyCode::Backslash
    } else if name == "BracketLeft"@ {
        KeyCode::BracketLeft
    } else if name == "BracketRight"@ {
        KeyCode::BracketRight
    } else if name == "Backquote"@ {
        KeyCode::Backquote
    } else if name == "Comma"@ {
        KeyCode::Comma
    } else if name == "Digit0"@ {
        KeyCode::Digit0
    } else if name == "Digit1"@ {
        KeyCode::Digit1
    } else if name == "Digit2"@ {
        KeyCode::Digit2
    } else if name == "Digit3"@ {
        KeyCode::Digit3
    } else if name == "Digit4"@ {
        KeyCode::Digit4
    } else if name == "Digit5"@ {
        KeyCode::Digit5
    } else if name == "Digit6"@ {
        KeyCode::Digit6
    } else if name == "Digit7"@ {
        KeyCode::Digit7
    } else if name == "Digit8"@ {
        KeyCode::Digit8
    } else if name == "Digit9"@ {
        KeyCode::Digit9
    } else if name == "Equal"@ {
        KeyCode::Equal
    } else if name == "Minus"@ {
        KeyCode::Minus
    } else if name == "Period"@ {
        KeyCode::Period
    } else if name == "Quote"@ {
        KeyCode::Quote
    } else if name == "Semicolon"@ {
        KeyCode::Semicolon
    } else if name == "Slash"@ {
        KeyCode::Slash
    } else if name == "Backspace"@ {
        KeyCode::Backspace
    } else if name == "CapsLock"@ {
        KeyCode::CapsLock
    } else if name == "Enter"@ {
        KeyCode::Enter
    } else if name == "Space"@ {
        KeyCode::Space
    } else if name == "Tab"@ {
        KeyCode::Tab
    } else if name == "Delete"@ {
        KeyCode::Delete
    } else if name == "End"@ {
        KeyCode::End
    } else if name == "Home"@ {
        KeyCode::Home
    } else if name == "Insert"@ {
        KeyCode::Insert
    } else if name == "PageDown"@ {
        KeyCode::PageDown
    } else if name == "PageUp"@ {
        KeyCode::PageUp
    } else if name == "ArrowDown"@ {
        KeyCode::ArrowDown
    } else if name == "ArrowLeft"@ {
        KeyCode::ArrowLeft
    } else if name == "ArrowRight"@ {
        KeyCode::ArrowRight
    } else if name == "ArrowUp"@ {
        KeyCode::ArrowUp
    } else if name == "Numpad0"@ {
        KeyCode::Numpad0
    } else if name == "Numpad1"@ {
        KeyCode::Numpad1
    } else if name == "Numpad2"@ {
        KeyCode::Numpad2
    } else if name == "Numpad3"@ {
        KeyCode::Numpad3
    } else if name == "Numpad4"@ {
        KeyCode::Numpad4
    } else if name == "Numpad5"@ {
        KeyCode::Numpad5
    } else if name == "Numpad6"@ {
        KeyCode::Numpad6
    } else if name == "Numpad7"@ {
        KeyCode::Numpad7
    } else if name == "Numpad8"@ {
        KeyCode::Numpad8
    } else if name == "Numpad9"@ {
        KeyCode::Numpad9
    } else if name == "NumpadAdd"@ {
        KeyCode::NumpadAdd
    } else if name == "NumpadDecimal"@ {
        KeyCode::NumpadDecimal
    } else if name == "NumpadDivide"@ {
        KeyCode::NumpadDivide
    } else if name == "NumpadMultiply"@ {
        KeyCode::NumpadMultiply
    } else if name == "NumpadSubtract"@ {
        KeyCode::NumpadSubtract
    } else if name == "Escape"@ {
        KeyCode::Escape
    } else if name == "PrintScreen"@ {
        KeyCode::PrintScreen
    } else if name == "ScrollLock"@ {
        KeyCode::ScrollLock
    } else if name == "NumLock"@ {
        KeyCode::NumLock
    } else if name == "F1"@ {
        KeyCode::F1
    } else if name == "F2"@ {
        KeyCode::F2
    } else if name == "F3"@ {
        KeyCode::F3
    } else if name == "F4"@ {
        KeyCode::F4
    } else if name == "F5"@ {
        KeyCode::F5
    } else if name == "F6"@ {
        KeyCode::F6
    } else if name == "F7"@ {
        KeyCode::F7
    } else if name == "F8"@ {
        KeyCode::F8
    } else if name == "F9"@ {
        KeyCode::F9
    } else if name == "F10"@ {
        KeyCode::F10
    } else if name == "F11"@ {
        KeyCode::F11
    } else if name == "F12"@ {
        KeyCode::F12
    } else if name == "AudioVolumeDown"@ {
        KeyCode::AudioVolumeDown
    } else if name == "AudioVolumeMute"@ {
        KeyCode::AudioVolumeMute
    } else if name == "AudioVolumeUp"@ {
        KeyCode::AudioVolumeUp
    } else if name == "MediaPlay"@ {
        KeyCode::MediaPlay
    } else if name == "MediaPause"@ {
        KeyCode::MediaPause
    } else if name == "MediaStop"@ {
        KeyCode::MediaStop
    } else if name == "MediaTrackNext"@ {
        KeyCode::MediaTrackNext
    } else if name == "MediaTrackPrevious"@ {
        KeyCode::MediaTrackPrevious
    } else if name == "Pause"@ {
        KeyCode::Pause
    } else {
        KeyCode::Other
    }
}

impl KeyCode {
    /// The key that a W3C `code` name names; `Other` for any other name.
    pub fn from_code_name(name: &str) -> (r: KeyCode)
        ensures
            r == key_of_code_name(name@),
    {
        if same_text(name, "KeyA") {
            KeyCode::KeyA
        } else if same_text(name, "KeyB") {
            KeyCode::KeyB
        } else if same_text(name, "KeyC") {
            KeyCode::KeyC
        } else if same_text(name, "KeyD") {
            KeyCode::KeyD
        } else if same_text(name, "KeyE") {
            KeyCode::KeyE
        } else if same_text(name, "KeyF") {
            KeyCode::KeyF
        } else if same_text(name, "KeyG") {
            KeyCode::KeyG
        } else if same_text(name, "KeyH") {
            KeyCode::KeyH
        } else if same_text(name, "KeyI") {
            KeyCode::KeyI
        } else if same_text(name, "KeyJ") {
            KeyCode::KeyJ
        } else if same_text(name, "KeyK") {
            KeyCode::KeyK
        } else if same_text(name, "KeyL") {
            KeyCode::KeyL
        } else if same_text(name, "KeyM") {
            KeyCode::KeyM
        } else if same_text(name, "KeyN") {
            KeyCode::KeyN
        } else if same_text(name, "KeyO") {
            KeyCode::KeyO
        } else if same_text(name, "KeyP") {
            KeyCode::KeyP
        } else if same_text(name, "KeyQ") {
            KeyCode::KeyQ
        } else if same_text(name, "KeyR") {
            KeyCode::KeyR
        } else if same_text(name, "KeyS") {
            KeyCode::KeyS
        } else if same_text(name, "KeyT") {
            KeyCode::KeyT
        } else if same_text(name, "KeyU") {
            KeyCode::KeyU
        } else if same_text(name, "KeyV") {
            KeyCode::KeyV
        } else if same_text(name, "KeyW") {
            KeyCode::KeyW
        } else if same_text(name, "KeyX") {
            KeyCode::KeyX
        } else if same_text(name, "KeyY") {
            KeyCode::KeyY
        } else if same_text(name, "KeyZ") {
            KeyCode::KeyZ
        } else if same_text(name, "Backslash") {
            KeyCode::Backslash
        } else if same_text(name, "BracketLeft") {
            KeyCode::BracketLeft
        } else if same_text(name, "BracketRight") {
            KeyCode::BracketRight
        } else if same_text(name, "Backquote") {
            KeyCode::Backquote
        } else if same_text(name, "Comma") {
            KeyCode::Comma
        } else if same_text(name, "Digit0") {
            KeyCode::Digit0
        } else if same_text(name, "Digit1") {
            KeyCode::Digit1
        } else if same_text(name, "Digit2") {
            KeyCode::Digit2
        } else if same_text(name, "Digit3") {
            KeyCode::Digit3
        } else if same_text(name, "Digit4") {
            KeyCode::Digit4
        } else if same_text(name, "Digit5") {
            KeyCode::Digit5
        } else if same_text(name, "Digit6") {
            KeyCode::Digit6
        } else if same_text(name, "Digit7") {
            KeyCode::Digit7
        } else if same_text(name, "Digit8") {
            KeyCode::Digit8
        } else if same_text(name, "Digit9") {
            KeyCode::Digit9
        } else if same_text(name, "Equal") {
            KeyCode::Equal
        } else if same_text(name, "Minus") {
            KeyCode::Minus
        } else if same_text(name, "Period") {
            KeyCode::Period
        } else if same_text(name, "Quote") {
            KeyCode::Quote
        } else if same_text(name, "Semicolon") {
            KeyCode::Semicolon
        } else if same_text(name, "Slash") {
            KeyCode::Slash
        } else if same_text(name, "Backspace") {
            KeyCode::Backspace
        } else if same_text(name, "CapsLock") {
            KeyCode::CapsLock
        } else if same_text(name, "Enter") {
            KeyCode::Enter
        } else if same_text(name, "Space") {
            KeyCode::Space
        } else if same_text(name, "Tab") {
            KeyCode::Tab
        } else if same_text(name, "Delete") {
            KeyCode::Delete
        } else if same_text(name, "End") {
            KeyCode::End
        } else if same_text(name, "Home") {
            KeyCode::Home
        } else if same_text(name, "Insert") {
            KeyCode::Insert
        } else if same_text(name, "PageDown") {
            KeyCode::PageDown
        } else if same_text(name, "PageUp") {
            KeyCode::PageUp
        } else if same_text(name, "ArrowDown") {
            KeyCode::ArrowDown
        } else if same_text(name, "ArrowLeft") {
            KeyCode::ArrowLeft
        } else if same_text(name, "ArrowRight") {
            KeyCode::ArrowRight
        } else if same_text(name, "ArrowUp") {
            KeyCode::ArrowUp
        } else if same_text(name, "Numpad0") {
            KeyCode::Numpad0
        } else if same_text(name, "Numpad1") {
            KeyCode::Numpad1
        } else if same_text(name, "Numpad2") {
            KeyCode::Numpad2
        } else if same_text(name, "Numpad3") {
            KeyCode::Numpad3
        } else if same_text(name, "Numpad4") {
            KeyCode::Numpad4
        } else if same_text(name, "Numpad5") {
            KeyCode::Numpad5
        } else if same_text(name, "Numpad6") {
            KeyCode::Numpad6
        } else if same_text(name, "Numpad7") {
            KeyCode::Numpad7
        } else if same_text(name, "Numpad8") {
            KeyCode::Numpad8
        } else if same_text(name, "Numpad9") {
            KeyCode::Numpad9
        } else if same_text(name, "NumpadAdd") {
            KeyCode::NumpadAdd
        } else if same_text(name, "NumpadDecimal") {
            KeyCode::NumpadDecimal
        } else if same_text(name, "NumpadDivide") {
            KeyCode::NumpadDivide
        } else if same_text(name, "NumpadMultiply") {
            KeyCode::NumpadMultiply
        } else if same_text(name, "NumpadSubtract") {
            KeyCode::NumpadSubtract
        } else if same_text(name, "Escape") {
            KeyCode::Escape
        } else if same_text(name, "PrintScreen") {
            KeyCode::PrintScreen
        } else if same_text(name, "ScrollLock") {
            KeyCode::ScrollLock
        } else if same_text(name, "NumLock") {
            KeyCode::NumLock
        } else if same_text(name, "F1") {
            KeyCode::F1
        } else if same_text(name, "F2") {
            KeyCode::F2
        } else if same_text(name, "F3") {
            KeyCode::F3
        } else if same_text(name, "F4") {
            KeyCode::F4
        } else if same_text(name, "F5") {
            KeyCode::F5
        } else if same_text(name, "F6") {
            KeyCode::F6
        } else if same_text(name, "F7") {
            KeyCode::F7
        } else if same_text(name, "F8") {
            KeyCode::F8
        } else if same_text(name, "F9") {
            KeyCode::F9
        } else if same_text(name, "F10") {
            KeyCode::F10
        } else if same_text(name, "F11") {
            KeyCode::F11
        } else if same_text(name, "F12") {
            KeyCode::F12
        } else if same_text(name, "AudioVolumeDown") {
            KeyCode::AudioVolumeDown
        } else if same_text(name, "AudioVolumeMute") {
            KeyCode::AudioVolumeMute
        } else if same_text(name, "AudioVolumeUp") {
            KeyCode::AudioVolumeUp
        } else if same_text(name, "MediaPlay") {
            KeyCode::MediaPlay
        } else if same_text(name, "MediaPause") {
            KeyCode::MediaPause
        } else if same_text(name, "MediaStop") {
            KeyCode::MediaStop
        } else if same_text(name, "MediaTrackNext") {
            KeyCode::MediaTrackNext
        } else if same_text(name, "MediaTrackPrevious") {
            KeyCode::MediaTrackPrevious
        } else if same_text(name, "Pause") {
            KeyCode::Pause
        } else {
            KeyCode::Other
        }
    }
}

/// A hotkey: its modifiers and its key. `logo` stands for Super or Meta.
#[derive(Debug, Clone, Copy, PartialEq, Eq, Structural)]
pub struct HotKeySpec {
    pub control: bool,
    pub shift: bool,
    pub alt: bool,
    pub logo: bool,
    pub key: KeyCode,
}

/// The keysym name of a key in a portal trigger, if it has one.
pub open spec fn key_trigger_name(k: KeyCode) -> Option<Seq<char>> {
    match k {
        KeyCode::KeyA => Some("a"@),
        KeyCode::KeyB => Some("b"@),
        KeyCode::KeyC => Some("c"@),
        KeyCode::KeyD => Some("d"@),
        KeyCode::KeyE => Some("e"@),
        KeyCode::KeyF => Some("f"@),
        KeyCode::KeyG => Some("g"@),
        KeyCode::KeyH => Some("h"@),
        KeyCode::KeyI => Some("i"@),
        KeyCode::KeyJ => Some("j"@),
        KeyCode::KeyK => Some("k"@),
        KeyCode::KeyL => Some("l"@),
        KeyCode::KeyM => Some("m"@),
        KeyCode::KeyN => Some("n"@),
        KeyCode::KeyO => Some("o"@),
        KeyCode::KeyP => Some("p"@),
        KeyCode::KeyQ => Some("q"@),
        KeyCode::KeyR => Some("r"@),
        KeyCode::KeyS => Some("s"@),
        KeyCode::KeyT => Some("t"@),
        KeyCode::KeyU => Some("u"@),
        KeyCode::KeyV => Some("v"@),
        KeyCode::KeyW => Some("w"@),
        KeyCode::KeyX => Some("x"@),
        KeyCode::KeyY => Some("y"@),
        KeyCode::KeyZ => Some("z"@),
        KeyCode::Backslash => Some("backslash"@),
        KeyCode::BracketLeft => Some("bracketleft"@),
        KeyCode::BracketRight => Some("bracketright"@),
        KeyCode::Backquote => Some("grave"@),
        KeyCode::Comma => Some("comma"@),
        KeyCode::Digit0 => Some("0"@),
        KeyCode::Digit1 => Some("1"@),
        KeyCode::Digit2 => Some("2"@),
        KeyCode::Digit3 => Some("3"@),
        KeyCode::Digit4 => Some("4"@),
        KeyCode::Digit5 => Some("5"@),
        KeyCode::Digit6 => Some("6"@),
        KeyCode::Digit7 => Some("7"@),
        KeyCode::Digit8 => Some("8"@),
        KeyCode::Digit9 => Some("9"@),
        KeyCode::Equal => Some("equal"@),
        KeyCode::Minus => Some("minus"@),
        KeyCode::Period => Some("period"@),
        KeyCode::Quote => Some("apostrophe"@),
        KeyCode::Semicolon => Some("semicolon"@),
        KeyCode::Slash => Some("slash"@),
        KeyCode::Backspace => Some("BackSpace"@),
        KeyCode::CapsLock => Some("Caps_Lock"@),
        KeyCode::Enter => Some("Return"@),
        KeyCode::Space => Some("space"@),
        KeyCode::Tab => Some("Tab"@),
        KeyCode::Delete => Some("Delete"@),
        KeyCode::End => Some("End"@),
        KeyCode::Home => Some("Home"@),
        KeyCode::Insert => Some("Insert"@),
        KeyCode::PageDown => Some("Page_Down"@),
        KeyCode::PageUp => Some("Page_Up"@),
        KeyCode::ArrowDown => Some("Down"@),
        KeyCode::ArrowLeft => Some("Left"@),
        KeyCode::ArrowRight => Some("Right"@),
        KeyCode::ArrowUp => Some("Up"@),
        KeyCode::Numpad0 => Some("KP_0"@),
        KeyCode::Numpad1 => Some("KP_1"@),
        KeyCode::Numpad2 => Some("KP_2"@),
        KeyCode::Numpad3 => Some("KP_3"@),
        KeyCode::Numpad4 => Some("KP_4"@),
        KeyCode::Numpad5 => Some("KP_5"@),
        KeyCode::Numpad6 => Some("KP_6"@),
        KeyCode::Numpad7 => Some("KP_7"@),
        KeyCode::Numpad8 => Some("KP_8"@),
        KeyCode::Numpad9 => Some("KP_9"@),
        KeyCode::NumpadAdd => Some("KP_Add"@),
        KeyCode::NumpadDecimal => Some("KP_Decimal"@),
        KeyCode::NumpadDivide => Some("KP_Divide"@),
        KeyCode::NumpadMultiply => Some("KP_Multiply"@),
        KeyCode::NumpadSubtract => Some("KP_Subtract"@),
        KeyCode::Escape => Some("Escape"@),
        KeyCode::PrintScreen => Some("Print"@),
        KeyCode::ScrollLock => Some("Scroll_Lock"@),
        KeyCode::NumLock => Some("Num_Lock"@),
        KeyCode::F1 => Some("F1"@),
        KeyCode::F2 => Some("F2"@),
        KeyCode::F3 => Some("F3"@),
        KeyCode::F4 => Some("F4"@),
        KeyCode::F5 => Some("F5"@),
        KeyCode::F6 => Some("F6"@),
        KeyCode::F7 => Some("F7"@),
        KeyCode::F8 => Some("F8"@),
        KeyCode::F9 => Some("F9"@),
        KeyCode::F10 => Some("F10"@),
        KeyCode::F11 => Some("F11"@),
        KeyCode::F12 => Some("F12"@),
        KeyCode::AudioVolumeDown => Some("XF86AudioLowerVolume"@),
        KeyCode::AudioVolumeMute => Some("XF86AudioMute"@),
        KeyCode::AudioVolumeUp => Some("XF86AudioRaiseVolume"@),
        KeyCode::MediaPlay => Some("XF86AudioPlay"@),
        KeyCode::MediaPause => Some("XF86AudioPause"@),
        KeyCode::MediaStop => Some("XF86AudioStop"@),
        KeyCode::MediaTrackNext => Some("XF86AudioNext"@),
        KeyCode::MediaTrackPrevious => Some("XF86AudioPrev"@),
        KeyCode::Pause => Some("Pause"@),
        KeyCode::Other => None,
    }
}

/// The name of a letter key in a trigger: a key whose `code` name is `Key` and an
/// upper-case letter is named by that letter in lower case (its XKB keysym).
proof fn lemma_letter_key_name(c: char)
    requires
        'A' <= c <= 'Z',
    ensures
        key_trigger_name(key_of_code_name("Key"@ + seq![c])) == Some(seq![crate::text::ascii_lower(c)]),
{
    reveal_strlit("Key");
    reveal_strlit("KeyA");
    reveal_strlit("a");
    reveal_strlit("KeyB");
    reveal_strlit("b");
    reveal_strlit("KeyC");
    reveal_strlit("c");
    reveal_strlit("KeyD");
    reveal_strlit("d");
    reveal_strlit("KeyE");
    reveal_strlit("e");
    reveal_strlit("KeyF");
    reveal_strlit("f");
    reveal_strlit("KeyG");
    reveal_strlit("g");
    reveal_strlit("KeyH");
    reveal_strlit("h");
    reveal_strlit("KeyI");
    reveal_strlit("i");
    reveal_strlit("KeyJ");
    reveal_strlit("j");
    reveal_strlit("KeyK");
    reveal_strlit("k");
    reveal_strlit("KeyL");
    reveal_strlit("l");
    reveal_strlit("KeyM");
    reveal_strlit("m");
    reveal_strlit("KeyN");
    reveal_strlit("n");
    reveal_strlit("KeyO");
    reveal_strlit("o");
    reveal_strlit("KeyP");
    reveal_strlit("p");
    reveal_strlit("KeyQ");
    reveal_strlit("q");
    reveal_strlit("KeyR");
    reveal_strlit("r");
    reveal_strlit("KeyS");
    reveal_strlit("s");
    reveal_strlit("KeyT");
    reveal_strlit("t");
    reveal_strlit("KeyU");
    reveal_strlit("u");
    reveal_strlit("KeyV");
    reveal_strlit("v");
    reveal_strlit("KeyW");
    reveal_strlit("w");
    reveal_strlit("KeyX");
    reveal_strlit("x");
    reveal_strlit("KeyY");
    reveal_strlit("y");
    reveal_strlit("KeyZ");
    reveal_strlit("z");
    let n = "Key"@ + seq![c];
    assert(n.len() == 4 && n[3] == c);
    assert("KeyA"@[3] == 'A');
    assert("KeyB"@[3] == 'B');
    assert("KeyC"@[3] == 'C');
    assert("KeyD"@[3] == 'D');
    assert("KeyE"@[3] == 'E');
    assert("KeyF"@[3] == 'F');
    assert("KeyG"@[3] == 'G');
    assert("KeyH"@[3] == 'H');
    assert("KeyI"@[3] == 'I');
    assert("KeyJ"@[3] == 'J');
    assert("KeyK"@[3] == 'K');
    assert("KeyL"@[3] == 'L');
    assert("KeyM"@[3] == 'M');
    assert("KeyN"@[3] == 'N');
    assert("KeyO"@[3] == 'O');
    assert("KeyP"@[3] == 'P');
    assert("KeyQ"@[3] == 'Q');
    assert("KeyR"@[3] == 'R');
    assert("KeyS"@[3] == 'S');
    assert("KeyT"@[3] == 'T');
    assert("KeyU"@[3] == 'U');
    assert("KeyV"@[3] == 'V');
    assert("KeyW"@[3] == 'W');
    assert("KeyX"@[3] == 'X');
    assert("KeyY"@[3] == 'Y');
    assert("KeyZ"@[3] == 'Z');
    if c == 'A' {
        assert(n =~= "KeyA"@);
        assert(seq![crate::text::ascii_lower(c)] =~= "a"@);
    } else if c == 'B' {
        assert(n =~= "KeyB"@);
        assert(seq![crate::text::ascii_lower(c)] =~= "b"@);
    } else if c == 'C' {
        assert(n =~= "KeyC"@);
        assert(seq![crate::text::ascii_lower(c)] =~= "c"@);
    } else if c == 'D' {
        assert(n =~= "KeyD"@);
        assert(seq![crate::text::ascii_lower(c)] =~= "d"@);
    } else if c == 'E' {
        assert(n =~= "KeyE"@);
        assert(seq![crate::text::ascii_lower(c)] =~= "e"@);
    } else if c == 'F' {
        assert(n =~= "KeyF"@);
        assert(seq![crate::text::ascii_lower(c)] =~= "f"@);
    } else if c == 'G' {
        assert(n =~= "KeyG"@);
        assert(seq![crate::text::ascii_lower(c)] =~= "g"@);
    } else if c == 'H' {
        assert(n =~= "KeyH"@);
        assert(seq![crate::text::ascii_lower(c)] =~= "h"@);
    } else if c == 'I' {
        assert(n =~= "KeyI"@);
        assert(seq![crate::text::ascii_lower(c)] =~= "i"@);
    } else if c == 'J' {
        assert(n =~= "KeyJ"@);
        assert(seq![crate::text::ascii_lower(c)] =~= "j"@);
    } else if c == 'K' {
        assert(n =~= "KeyK"@);
        assert(seq![crate::text::ascii_lower(c)] =~= "k"@);
    } else if c == 'L' {
        assert(n =~= "KeyL"@);
        assert(seq![crate::text::ascii_lower(c)] =~= "l"@);
    } else if c == 'M' {
        assert(n =~= "KeyM"@);
        assert(seq![crate::text::ascii_lower(c)] =~= "m"@);
    } else if c == 'N' {
        assert(n =~= "KeyN"@);
        assert(seq![crate::text::ascii_lower(c)] =~= "n"@);
    } else if c == 'O' {
        assert(n =~= "KeyO"@);
        assert(seq![crate::text::ascii_lower(c)] =~= "o"@);
    } else if c == 'P' {
        assert(n =~= "KeyP"@);
        assert(seq![crate::text::ascii_lower(c)] =~= "p"@);
    } else if c == 'Q' {
        assert(n =~= "KeyQ"@);
        assert(seq![crate::text::ascii_lower(c)] =~= "q"@);
    } else if c == 'R' {
        assert(n =~= "KeyR"@);
        assert(seq![crate::text::ascii_lower(c)] =~= "r"@);
    } else if c == 'S' {
        assert(n =~= "KeyS"@);
        assert(seq![crate::text::ascii_lower(c)] =~= "s"@);
    } else if c == 'T' {
        assert(n =~= "KeyT"@);
        assert(seq![crate::text::ascii_lower(c)] =~= "t"@);
    } else if c == 'U' {
        assert(n =~= "KeyU"@);
        assert(seq![crate::text::ascii_lower(c)] =~= "u"@);
    } else if c == 'V' {
        assert(n =~= "KeyV"@);
        assert(seq![crate::text::ascii_lower(c)] =~= "v"@);
    } else if c == 'W' {
        assert(n =~= "KeyW"@);
        assert(seq![crate::text::ascii_lower(c)] =~= "w"@);
    } else if c == 'X' {
        assert(n =~= "KeyX"@);
        assert(seq![crate::text::ascii_lower(c)] =~= "x"@);
    } else if c == 'Y' {
        assert(n =~= "KeyY"@);
        assert(seq![crate::text::ascii_lower(c)] =~= "y"@);
    } else if c == 'Z' {
        assert(n =~= "KeyZ"@);
        assert(seq![crate::text::ascii_lower(c)] =~= "z"@);
    }
}

/// The name of a digit key in a trigger: a key whose `code` name is `Digit` and a
/// digit is named by that digit.
proof fn lemma_digit_key_name(c: char)
    requires
        '0' <= c <= '9',
    ensures
        key_trigger_name(key_of_code_name("Digit"@ + seq![c])) == Some(seq![c]),
{
    reveal_strlit("Digit");
    reveal_strlit("KeyA");
    reveal_strlit("KeyB");
    reveal_strlit("KeyC");
    reveal_strlit("KeyD");
    reveal_strlit("KeyE");
    reveal_strlit("KeyF");
    reveal_strlit("KeyG");
    reveal_strlit("KeyH");
    reveal_strlit("KeyI");
    reveal_strlit("KeyJ");
    reveal_strlit("KeyK");
    reveal_strlit("KeyL");
    reveal_strlit("KeyM");
    reveal_strlit("KeyN");
    reveal_strlit("KeyO");
    reveal_strlit("KeyP");
    reveal_strlit("KeyQ");
    reveal_strlit("KeyR");
    reveal_strlit("KeyS");
    reveal_strlit("KeyT");
    reveal_strlit("KeyU");
    reveal_strlit("KeyV");
    reveal_strlit("KeyW");
    reveal_strlit("KeyX");
    reveal_strlit("KeyY");
    reveal_strlit("KeyZ");
    reveal_strlit("Backslash");
    reveal_strlit("BracketLeft");
    reveal_strlit("BracketRight");
    reveal_strlit("Backquote");
    reveal_strlit("Comma");
    reveal_strlit("Digit0");
    reveal_strlit("0");
    reveal_strlit("Digit1");
    reveal_strlit("1");
    reveal_strlit("Digit2");
    reveal_strlit("2");
    reveal_strlit("Digit3");
    reveal_strlit("3");
    reveal_strlit("Digit4");
    reveal_strlit("4");
    reveal_strlit("Digit5");
    reveal_strlit("5");
    reveal_strlit("Digit6");
    reveal_strlit("6");
    reveal_strlit("Digit7");
    reveal_strlit("7");
    reveal_strlit("Digit8");
    reveal_strlit("8");
    reveal_strlit("Digit9");
    reveal_strlit("9");
    let n = "Digit"@ + seq![c];
    assert(n.len() == 6 && n[5] == c);
    assert("Digit0"@[5] == '0');
    assert("Digit1"@[5] == '1');
    assert("Digit2"@[5] == '2');
    assert("Digit3"@[5] == '3');
    assert("Digit4"@[5] == '4');
    assert("Digit5"@[5] == '5');
    assert("Digit6"@[5] == '6');
    assert("Digit7"@[5] == '7');
    assert("Digit8"@[5] == '8');
    assert("Digit9"@[5] == '9');
    if c == '0' {
        assert(n =~= "Digit0"@);
        assert(seq![c] =~= "0"@);
    } else if c == '1' {
        assert(n =~= "Digit1"@);
        assert(seq![c] =~= "1"@);
    } else if c == '2' {
        assert(n =~= "Digit2"@);
        assert(seq![c] =~= "2"@);
    } else if c == '3' {
        assert(n =~= "Digit3"@);
        assert(seq![c] =~= "3"@);
    } else if c == '4' {
        assert(n =~= "Digit4"@);
        assert(seq![c] =~= "4"@);
    } else if c == '5' {
        assert(n =~= "Digit5"@);
        assert(seq![c] =~= "5"@);
    } else if c == '6' {
        assert(n =~= "Digit6"@);
        assert(seq![c] =~= "6"@);
    } else if c == '7' {
        assert(n =~= "Digit7"@);
        assert(seq![c] =~= "7"@);
    } else if c == '8' {
        assert(n =~= "Digit8"@);
        assert(seq![c] =~= "8"@);
    } else if c == '9' {
        assert(n =~= "Digit9"@);
        assert(seq![c] =~= "9"@);
    }
}

/// The key names of portal triggers follow the keys' `code` names: the letter key
/// `Key<X>` is named by the letter `x` in lower case and the digit key `Digit<d>` by the
/// digit `d`, so a shortcut such as `Ctrl+Alt+KeyV` becomes `CTRL+ALT+v`.
pub proof fn lemma_trigger_names_follow_code_names()
    ensures
        forall|c: char| 'A' <= c <= 'Z' ==> #[trigger] key_trigger_name(key_of_code_name("Key"@ + seq![c])) == Some(
            seq![crate::text::ascii_lower(c)],
        ),
        forall|c: char| '0' <= c <= '9' ==> #[trigger] key_trigger_name(key_of_code_name("Digit"@ + seq![c])) == Some(
            seq![c],
        ),
{
    assert forall|c: char| 'A' <= c <= 'Z' implies #[trigger] key_trigger_name(key_of_code_name("Key"@ + seq![c]))
        == Some(seq![crate::text::ascii_lower(c)]) by {
        lemma_letter_key_name(c);
    }
    assert forall|c: char| '0' <= c <= '9' implies #[trigger] key_trigger_name(key_of_code_name("Digit"@ + seq![c]))
        == Some(seq![c]) by {
        lemma_digit_key_name(c);
    }
}

/// The modifier part of a trigger: `CTRL+`, `SHIFT+`, `ALT+`, `LOGO+`, in that order,
/// each where the hotkey has it.
pub open spec fn modifier_prefix(h: HotKeySpec) -> Seq<char> {
    (if h.control { "CTRL+"@ } else { Seq::empty() }) + (if h.shift { "SHIFT+"@ } else { Seq::empty() })
        + (if h.alt { "ALT+"@ } else { Seq::empty() }) + (if h.logo { "LOGO+"@ } else { Seq::empty() })
}

fn key_name(k: KeyCode) -> (r: Option<&'static str>)
    ensures
        match key_trigger_name(k) {
            Some(n) => r matches Some(s) && s@ == n,
            None => r is None,
        },
{
    let name = match k {
        KeyCode::KeyA => "a",
        KeyCode::KeyB => "b",
        KeyCode::KeyC => "c",
        KeyCode::KeyD => "d",
        KeyCode::KeyE => "e",
        KeyCode::KeyF => "f",
        KeyCode::KeyG => "g",
        KeyCode::KeyH => "h",
        KeyCode::KeyI => "i",
        KeyCode::KeyJ => "j",
        KeyCode::KeyK => "k",
        KeyCode::KeyL => "l",
        KeyCode::KeyM => "m",
        KeyCode::KeyN => "n",
        KeyCode::KeyO => "o",
        KeyCode::KeyP => "p",
        KeyCode::KeyQ => "q",
        KeyCode::KeyR => "r",
        KeyCode::KeyS => "s",
        KeyCode::KeyT => "t",
        KeyCode::KeyU => "u",
        KeyCode::KeyV => "v",
        KeyCode::KeyW => "w",
        KeyCode::KeyX => "x",
        KeyCode::KeyY => "y",
        KeyCode::KeyZ => "z",
        KeyCode::Backslash => "backslash",
        KeyCode::BracketLeft => "bracketleft",
        KeyCode::BracketRight => "bracketright",
        KeyCode::Backquote => "grave",
        KeyCode::Comma => "comma",
        KeyCode::Digit0 => "0",
        KeyCode::Digit1 => "1",
        KeyCode::Digit2 => "2",
        KeyCode::Digit3 => "3",
        KeyCode::Digit4 => "4",
        KeyCode::Digit5 => "5",
        KeyCode::Digit6 => "6",
        KeyCode::Digit7 => "7",
        KeyCode::Digit8 => "8",
        KeyCode::Digit9 => "9",
        KeyCode::Equal => "equal",
        KeyCode::Minus => "minus",
        KeyCode::Period => "period",
        KeyCode::Quote => "apostrophe",
        KeyCode::Semicolon => "semicolon",
        KeyCode::Slash => "slash",
        KeyCode::Backspace => "BackSpace",
        KeyCode::CapsLock => "Caps_Lock",
        KeyCode::Enter => "Return",
        KeyCode::Space => "space",
        KeyCode::Tab => "Tab",
        KeyCode::Delete => "Delete",
        KeyCode::End => "End",
        KeyCode::Home => "Home",
        KeyCode::Insert => "Insert",
        KeyCode::PageDown => "Page_Down",
        KeyCode::PageUp => "Page_Up",
        KeyCode::ArrowDown => "Down",
        KeyCode::ArrowLeft => "Left",
        KeyCode::ArrowRight => "Right",
        KeyCode::ArrowUp => "Up",
        KeyCode::Numpad0 => "KP_0",
        KeyCode::Numpad1 => "KP_1",
        KeyCode::Numpad2 => "KP_2",
        KeyCode::Numpad3 => "KP_3",
        KeyCode::Numpad4 => "KP_4",
        KeyCode::Numpad5 => "KP_5",
        KeyCode::Numpad6 => "KP_6",
        KeyCode::Numpad7 => "KP_7",
        KeyCode::Numpad8 => "KP_8",
        KeyCode::Numpad9 => "KP_9",
        KeyCode::NumpadAdd => "KP_Add",
        KeyCode::NumpadDecimal => "KP_Decimal",
        KeyCode::NumpadDivide => "KP_Divide",
        KeyCode::NumpadMultiply => "KP_Multiply",
        KeyCode::NumpadSubtract => "KP_Subtract",
        KeyCode::Escape => "Escape",
        KeyCode::PrintScreen => "Print",
        KeyCode::ScrollLock => "Scroll_Lock",
        KeyCode::NumLock => "Num_Lock",
        KeyCode::F1 => "F1",
        KeyCode::F2 => "F2",
        KeyCode::F3 => "F3",
        KeyCode::F4 => "F4",
        KeyCode::F5 => "F5",
        KeyCode::F6 => "F6",
        KeyCode::F7 => "F7",
        KeyCode::F8 => "F8",
        KeyCode::F9 => "F9",
        KeyCode::F10 => "F10",
        KeyCode::F11 => "F11",
        KeyCode::F12 => "F12",
        KeyCode::AudioVolumeDown => "XF86AudioLowerVolume",
        KeyCode::AudioVolumeMute => "XF86AudioMute",
        KeyCode::AudioVolumeUp => "XF86AudioRaiseVolume",
        KeyCode::MediaPlay => "XF86AudioPlay",
        KeyCode::MediaPause => "XF86AudioPause",
        KeyCode::MediaStop => "XF86AudioStop",
        KeyCode::MediaTrackNext => "XF86AudioNext",
        KeyCode::MediaTrackPrevious => "XF86AudioPrev",
        KeyCode::Pause => "Pause",
        KeyCode::Other => return None,
    };
    Some(name)
}

/// The portal's preferred trigger for a hotkey, such as `CTRL+ALT+space`; `None` for
/// a key that has no trigger name.
pub fn hotkey_to_wayland_trigger(hotkey: HotKeySpec) -> (r: Option<String>)
    ensures
        match key_trigger_name(hotkey.key) {
            Some(n) => r matches Some(s) && s@ == modifier_prefix(hotkey) + n,
            None => r is None,
        },
{
    let mut modifiers = String::new();
    if hotkey.control {
        modifiers.append("CTRL+");
    }
    if hotkey.shift {
        modifiers.append("SHIFT+");
    }
    if hotkey.alt {
        modifiers.append("ALT+");
    }
    if hotkey.logo {
        modifiers.append("LOGO+");
    }
    assert(modifiers@ =~= modifier_prefix(hotkey));
    match key_name(hotkey.key) {
        Some(key) => {
            modifiers.append(key);
            Some(modifiers)
        },
        None => None,
    }
}

} // verus!
