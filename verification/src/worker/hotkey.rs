//! Global shortcuts as the settings write them (`Ctrl+Alt+Space`): read by the
//! `global-hotkey` crate, refused without a modifier, checked to differ between the
//! launcher and quick input, and registered again only where they changed. A pressed
//! shortcut is told apart by its id.

use vstd::prelude::*;
use crate::model::Settings;
use crate::text::{dec, lemma_unsigned_dec, same_text, trim, trim_spec, u64_to_string};
use crate::worker::platform::parse_u32_spec;
use crate::worker::shortcut::{hotkey_to_wayland_trigger, key_of_code_name, key_trigger_name, modifier_prefix,
    HotKeySpec, KeyCode};

verus! {

broadcast use vstd::string::group_string_axioms;

/// A hotkey as the `global-hotkey` crate reads it: its modifiers, its key by its W3C
/// `code` name, its id, and the text that the crate writes for it.
#[derive(Debug, Clone, PartialEq, Eq)]
pub struct ParsedHotKey {
    pub control: bool,
    pub shift: bool,
    pub alt: bool,
    pub meta: bool,
    pub key: String,
    pub id: u32,
    pub description: String,
}

/// What a parsed hotkey holds.
pub struct ParsedHotKeyView {
    pub control: bool,
    pub shift: bool,
    pub alt: bool,
    pub meta: bool,
    pub key: Seq<char>,
    pub id: u32,
    pub description: Seq<char>,
}

impl View for ParsedHotKey {
    type V = ParsedHotKeyView;

    open spec fn view(&self) -> ParsedHotKeyView {
        ParsedHotKeyView {
            control: self.control,
            shift: self.shift,
            alt: self.alt,
            meta: self.meta,
            key: self.key@,
            id: self.id,
            description: self.description@,
        }
    }
}

/// The hotkey that `global_hotkey::hotkey::HotKey::from_str` reads from `text`, or
/// `None` where it refuses the text. It is a function of the text for the build at
/// hand: the parser reads `CmdOrCtrl` (and its spellings) as the super key on macOS
/// builds and as control on every other target.
pub uninterp spec fn hotkey_parse(text: Seq<char>) -> Option<ParsedHotKeyView>;

/// `str::parse::<global_hotkey::hotkey::HotKey>`, with the hotkey's four modifiers
/// (the parser sets no other), its key's `code` name (`Code`'s `Display`), its id and
/// its text (`HotKey::into_string`) taken out. The contract claims that the outcome is a function of the text alone,
/// named `hotkey_parse`; the parser's error message is not stated.
#[verifier::external_body]
fn parse_with_global_hotkey(text: &str) -> (r: Result<ParsedHotKey, String>)
    ensures
        match r {
            Ok(h) => hotkey_parse(text@) == Some(h@),
            Err(_) => hotkey_parse(text@) is None,
        },
{
    let hotkey = text.parse::<global_hotkey::hotkey::HotKey>().map_err(|error| error.to_string())?;
    Ok(ParsedHotKey {
        control: hotkey.mods.contains(global_hotkey::hotkey::Modifiers::CONTROL),
        shift: hotkey.mods.contains(global_hotkey::hotkey::Modifiers::SHIFT),
        alt: hotkey.mods.contains(global_hotkey::hotkey::Modifiers::ALT),
        meta: hotkey.mods.contains(global_hotkey::hotkey::Modifiers::META),
        key: hotkey.key.to_string(),
        id: hotkey.id(),
        description: hotkey.into_string(),
    })
}

/// Whether a hotkey has at least one modifier.
pub open spec fn has_modifier(h: ParsedHotKeyView) -> bool {
    h.control || h.shift || h.alt || h.meta
}

/// The message for a shortcut without a modifier.
pub open spec fn no_modifier_message() -> Seq<char> {
    "global shortcut must contain at least one modifier"@
}

/// What a shortcut setting gives: the hotkey that its trimmed text reads as, where it
/// has a modifier; `Err(None)` where the text is refused (the message is the
/// parser's), `Err(Some(m))` where the hotkey has no modifier.
pub open spec fn shortcut_result(value: Seq<char>) -> Result<ParsedHotKeyView, Option<Seq<char>>> {
    match hotkey_parse(trim_spec(value)) {
        None => Err(None),
        Some(h) => if has_modifier(h) {
            Ok(h)
        } else {
            Err(Some(no_modifier_message()))
        },
    }
}

/// Whether an error matches a refusal of `shortcut_result`.
pub open spec fn error_matches(e: String, expected: Option<Seq<char>>) -> bool {
    match expected {
        Some(m) => e@ == m,
        None => true,
    }
}

/// Reads a shortcut setting such as `Ctrl+Alt+Space`; it must have a modifier.
pub fn parse_shortcut(value: &str) -> (r: Result<ParsedHotKey, String>)
    ensures
        match shortcut_result(value@) {
            Ok(h) => r matches Ok(p) && p@ == h,
            Err(m) => r matches Err(e) && error_matches(e, m),
        },
{
    let hotkey = match parse_with_global_hotkey(trim(value)) {
        Ok(h) => h,
        Err(e) => return Err(e),
    };
    if !(hotkey.control || hotkey.shift || hotkey.alt || hotkey.meta) {
        return Err(String::from_str("global shortcut must contain at least one modifier"));
    }
    Ok(hotkey)
}

impl ParsedHotKey {
    /// The hotkey's modifiers and key, for the portal's trigger names; Meta counts as
    /// the logo key.
    pub fn spec(&self) -> (r: HotKeySpec)
        ensures
            r == (HotKeySpec {
                control: self.control,
                shift: self.shift,
                alt: self.alt,
                logo: self.meta,
                key: key_of_code_name(self.key@),
            }),
    {
        HotKeySpec {
            control: self.control,
            shift: self.shift,
            alt: self.alt,
            logo: self.meta,
            key: KeyCode::from_code_name(self.key.as_str()),
        }
    }
}

/// Whether two hotkeys are the same.
pub fn same_hotkey(a: &ParsedHotKey, b: &ParsedHotKey) -> (r: bool)
    ensures
        r == (a@ == b@),
{
    a.control == b.control && a.shift == b.shift && a.alt == b.alt && a.meta == b.meta && same_text(
        a.key.as_str(),
        b.key.as_str(),
    ) && a.id == b.id && same_text(a.description.as_str(), b.description.as_str())
}

fn copy_hotkey(h: &ParsedHotKey) -> (r: ParsedHotKey)
    ensures
        r@ == h@,
{
    ParsedHotKey {
        control: h.control,
        shift: h.shift,
        alt: h.alt,
        meta: h.meta,
        key: h.key.clone(),
        id: h.id,
        description: h.description.clone(),
    }
}

/// The shortcuts that the settings switch on.
#[derive(Debug, Clone, PartialEq, Eq)]
pub struct ShortcutSelection {
    pub launcher: Option<ParsedHotKey>,
    pub quick_input: Option<ParsedHotKey>,
}

/// The view of an optional hotkey.
pub open spec fn opt_hotkey(h: Option<ParsedHotKey>) -> Option<ParsedHotKeyView> {
    match h {
        Some(k) => Some(k@),
        None => None,
    }
}

/// The message for equal launcher and quick input shortcuts.
pub open spec fn same_shortcuts_message() -> Seq<char> {
    "launcher and quick input shortcuts must be different"@
}

/// The shortcuts that the settings switch on, read in turn (launcher first), where
/// both read and they differ; the first refusal otherwise.
pub open spec fn selection_result(s: Settings) -> Result<
    (Option<ParsedHotKeyView>, Option<ParsedHotKeyView>),
    Option<Seq<char>>,
> {
    let launcher = if s.global_shortcut_enabled {
        shortcut_result(s.global_shortcut@)
    } else {
        Err(None)
    };
    let quick = if s.quick_input_enabled {
        shortcut_result(s.quick_input_shortcut@)
    } else {
        Err(None)
    };
    if s.global_shortcut_enabled && launcher is Err {
        Err(launcher->Err_0)
    } else if s.quick_input_enabled && quick is Err {
        Err(quick->Err_0)
    } else {
        let l = if s.global_shortcut_enabled {
            Some(launcher->Ok_0)
        } else {
            None
        };
        let q = if s.quick_input_enabled {
            Some(quick->Ok_0)
        } else {
            None
        };
        if l is Some && l == q {
            Err(Some(same_shortcuts_message()))
        } else {
            Ok((l, q))
        }
    }
}

/// Reads the shortcuts that the settings switch on; the launcher's and quick input's
/// must differ.
pub fn select_shortcuts(settings: &Settings) -> (r: Result<ShortcutSelection, String>)
    ensures
        match selection_result(*settings) {
            Ok((l, q)) => r matches Ok(sel) && opt_hotkey(sel.launcher) == l && opt_hotkey(sel.quick_input) == q,
            Err(m) => r matches Err(e) && error_matches(e, m),
        },
{
    let launcher = if settings.global_shortcut_enabled {
        match parse_shortcut(settings.global_shortcut.as_str()) {
            Ok(h) => Some(h),
            Err(e) => return Err(e),
        }
    } else {
        None
    };
    let quick_input = if settings.quick_input_enabled {
        match parse_shortcut(settings.quick_input_shortcut.as_str()) {
            Ok(h) => Some(h),
            Err(e) => return Err(e),
        }
    } else {
        None
    };
    match (&launcher, &quick_input) {
        (Some(l), Some(q)) => {
            if same_hotkey(l, q) {
                return Err(String::from_str("launcher and quick input shortcuts must be different"));
            }
        },
        _ => {},
    }
    Ok(ShortcutSelection { launcher, quick_input })
}

/// The hotkeys to register for a selection: the launcher's, then quick input's.
pub open spec fn selection_hotkeys(l: Option<ParsedHotKeyView>, q: Option<ParsedHotKeyView>) -> Seq<
    ParsedHotKeyView,
> {
    (if l is Some {
        seq![l->Some_0]
    } else {
        seq![]
    }) + (if q is Some {
        seq![q->Some_0]
    } else {
        seq![]
    })
}

/// Hotkeys as plain values.
pub open spec fn hotkey_views(v: Seq<ParsedHotKey>) -> Seq<ParsedHotKeyView> {
    v.map_values(|h: ParsedHotKey| h@)
}

/// The id that stands for no shortcut.
pub const NO_HOTKEY: u32 = 0xffff_ffff;

/// What a pressed shortcut opens.
#[derive(Debug, Clone, Copy, PartialEq, Eq, Structural)]
pub enum ShortcutAction {
    OpenLauncher,
    OpenQuickInput,
}

/// The registered shortcuts: the hotkeys, and the ids that open the launcher and
/// quick input (`NO_HOTKEY` where there is none).
#[derive(Debug)]
pub struct ShortcutRegistration {
    registered: Vec<ParsedHotKey>,
    launcher_id: u32,
    quick_input_id: u32,
}

/// The id of an optional hotkey, `NO_HOTKEY` for none.
pub open spec fn id_or_none(h: Option<ParsedHotKeyView>) -> u32 {
    match h {
        Some(k) => k.id,
        None => NO_HOTKEY,
    }
}

impl ShortcutRegistration {
    /// The hotkeys registered.
    pub closed spec fn hotkeys(&self) -> Seq<ParsedHotKeyView> {
        hotkey_views(self.registered@)
    }

    /// The id that opens the launcher.
    pub closed spec fn launcher(&self) -> u32 {
        self.launcher_id
    }

    /// The id that opens quick input.
    pub closed spec fn quick_input(&self) -> u32 {
        self.quick_input_id
    }

    /// No shortcut registered.
    pub fn new() -> (r: ShortcutRegistration)
        ensures
            r.hotkeys() == Seq::<ParsedHotKeyView>::empty(),
            r.launcher() == NO_HOTKEY,
            r.quick_input() == NO_HOTKEY,
    {
        let r = ShortcutRegistration { registered: Vec::new(), launcher_id: NO_HOTKEY, quick_input_id: NO_HOTKEY };
        assert(hotkey_views(r.registered@) =~= Seq::<ParsedHotKeyView>::empty());
        r
    }

    /// The hotkeys to register for `selection`, or `None` where exactly these are
    /// registered already.
    pub fn replacement(&self, selection: &ShortcutSelection) -> (r: Option<Vec<ParsedHotKey>>)
        ensures
            ({
                let next = selection_hotkeys(opt_hotkey(selection.launcher), opt_hotkey(selection.quick_input));
                if next == self.hotkeys() {
                    r is None
                } else {
                    r matches Some(v) && hotkey_views(v@) == next
                }
            }),
    {
        let ghost next = selection_hotkeys(opt_hotkey(selection.launcher), opt_hotkey(selection.quick_input));
        let mut v: Vec<ParsedHotKey> = Vec::new();
        if let Some(l) = &selection.launcher {
            v.push(copy_hotkey(l));
        }
        if let Some(q) = &selection.quick_input {
            let ghost before = hotkey_views(v@);
            v.push(copy_hotkey(q));
            assert(hotkey_views(v@) =~= before.push(q@));
        }
        assert(hotkey_views(v@) =~= next);
        if v.len() == self.registered.len() {
            let mut i: usize = 0;
            let mut same = true;
            while i < v.len()
                invariant
                    v@.len() == self.registered@.len(),
                    i <= v@.len(),
                    same == (forall|j: int| 0 <= j < i ==> v@[j]@ == self.registered@[j]@),
                decreases v@.len() - i,
            {
                same = same && same_hotkey(&v[i], &self.registered[i]);
                i = i + 1;
            }
            if same {
                assert(hotkey_views(v@) =~= hotkey_views(self.registered@));
                return None;
            } else {
                assert(hotkey_views(v@) != hotkey_views(self.registered@)) by {
                    let j = choose|j: int| 0 <= j < v@.len() && v@[j]@ != self.registered@[j]@;
                    assert(hotkey_views(v@)[j] != hotkey_views(self.registered@)[j]);
                }
            }
        } else {
            assert(hotkey_views(v@).len() != hotkey_views(self.registered@).len());
        }
        Some(v)
    }

    /// The replacement succeeded: `next` is registered, and the selection's ids open
    /// the launcher and quick input.
    pub fn commit(&mut self, selection: &ShortcutSelection, next: Vec<ParsedHotKey>)
        ensures
            final(self).hotkeys() == hotkey_views(next@),
            final(self).launcher() == id_or_none(opt_hotkey(selection.launcher)),
            final(self).quick_input() == id_or_none(opt_hotkey(selection.quick_input)),
    {
        self.launcher_id = match &selection.launcher {
            Some(h) => h.id,
            None => NO_HOTKEY,
        };
        self.quick_input_id = match &selection.quick_input {
            Some(h) => h.id,
            None => NO_HOTKEY,
        };
        self.registered = next;
    }

    /// The replacement failed: nothing counts as registered any more, so that the next
    /// selection is registered again even where it is the same; the ids stay.
    pub fn forget(&mut self)
        ensures
            final(self).hotkeys() == Seq::<ParsedHotKeyView>::empty(),
            final(self).launcher() == old(self).launcher(),
            final(self).quick_input() == old(self).quick_input(),
    {
        self.registered = Vec::new();
        assert(hotkey_views(self.registered@) =~= Seq::<ParsedHotKeyView>::empty());
    }

    /// What a pressed shortcut with id `id` opens: the launcher's id is checked first.
    pub fn action_for(&self, id: u32) -> (r: Option<ShortcutAction>)
        ensures
            r == (if id == self.launcher() {
                Some(ShortcutAction::OpenLauncher)
            } else if id == self.quick_input() {
                Some(ShortcutAction::OpenQuickInput)
            } else {
                None
            }),
    {
        if id == self.launcher_id {
            Some(ShortcutAction::OpenLauncher)
        } else if id == self.quick_input_id {
            Some(ShortcutAction::OpenQuickInput)
        } else {
            None
        }
    }
}

/// A selection never holds the same hotkey twice: a launcher shortcut and a quick
/// input shortcut that both read are refused where they are the same.
pub proof fn lemma_selection_distinct(s: Settings)
    requires
        selection_result(s) is Ok,
    ensures
        ({
            let (l, q) = selection_result(s)->Ok_0;
            l is Some ==> l != q
        }),
{
}

/// After a failed replacement, any selection with a shortcut is registered again.
pub proof fn lemma_forgotten_registration_replaces(r: ShortcutRegistration, l: Option<ParsedHotKeyView>, q: Option<
    ParsedHotKeyView,
>)
    requires
        r.hotkeys() == Seq::<ParsedHotKeyView>::empty(),
        l is Some || q is Some,
    ensures
        selection_hotkeys(l, q) != r.hotkeys(),
{
    assert(selection_hotkeys(l, q).len() > 0);
}

/// A shortcut as the XDG GlobalShortcuts portal binds it: the id (the hotkey's id in
/// decimal), the description (the hotkey's text), and the preferred trigger.
#[derive(Debug, Clone, PartialEq, Eq)]
pub struct PortalShortcut {
    pub id: String,
    pub description: String,
    pub preferred_trigger: Option<String>,
}

/// The portal shortcut of a hotkey, as plain text.
pub open spec fn portal_shortcut_of(h: ParsedHotKeyView) -> (Seq<char>, Seq<char>, Option<Seq<char>>) {
    let spec = HotKeySpec {
        control: h.control,
        shift: h.shift,
        alt: h.alt,
        logo: h.meta,
        key: key_of_code_name(h.key),
    };
    (
        dec(h.id as nat),
        h.description,
        match key_trigger_name(spec.key) {
            Some(n) => Some(modifier_prefix(spec) + n),
            None => None,
        },
    )
}

/// Portal shortcuts as plain text.
pub open spec fn portal_views(v: Seq<PortalShortcut>) -> Seq<(Seq<char>, Seq<char>, Option<Seq<char>>)> {
    v.map_values(
        |p: PortalShortcut|
            (
                p.id@,
                p.description@,
                match p.preferred_trigger {
                    Some(t) => Some(t@),
                    None => None,
                },
            ),
    )
}

/// The portal shortcuts for hotkeys, one for each, in order.
pub fn portal_shortcuts(hotkeys: &Vec<ParsedHotKey>) -> (r: Vec<PortalShortcut>)
    ensures
        portal_views(r@) == hotkey_views(hotkeys@).map_values(|h: ParsedHotKeyView| portal_shortcut_of(h)),
{
    let mut out: Vec<PortalShortcut> = Vec::new();
    let mut i: usize = 0;
    while i < hotkeys.len()
        invariant
            i <= hotkeys@.len(),
            portal_views(out@) == hotkey_views(hotkeys@).map_values(|h: ParsedHotKeyView| portal_shortcut_of(h)).take(
                i as int,
            ),
        decreases hotkeys@.len() - i,
    {
        let h = &hotkeys[i];
        let shortcut = PortalShortcut {
            id: u64_to_string(h.id as u64),
            description: h.description.clone(),
            preferred_trigger: hotkey_to_wayland_trigger(h.spec()),
        };
        let ghost before = portal_views(out@);
        out.push(shortcut);
        assert(portal_views(out@) =~= before.push(portal_shortcut_of(h@)));
        assert(hotkey_views(hotkeys@).map_values(|h: ParsedHotKeyView| portal_shortcut_of(h)).take(i + 1)
            =~= hotkey_views(hotkeys@).map_values(|h: ParsedHotKeyView| portal_shortcut_of(h)).take(i as int).push(
            portal_shortcut_of(h@),
        ));
        i = i + 1;
    }
    assert(hotkey_views(hotkeys@).map_values(|h: ParsedHotKeyView| portal_shortcut_of(h)).take(i as int)
        =~= hotkey_views(hotkeys@).map_values(|h: ParsedHotKeyView| portal_shortcut_of(h)));
    out
}

/// The id of a bound portal shortcut reads back, as `portal_shortcut_event_id` reads
/// the shortcut id of a signal of the active session, as the id of the hotkey that the
/// shortcut was made for.
pub proof fn lemma_portal_id_roundtrip(h: ParsedHotKeyView)
    ensures
        parse_u32_spec(portal_shortcut_of(h).0) == Some(h.id),
{
    lemma_unsigned_dec(h.id as nat);
}

} // verus!
