//! The model that the runner and the worker share: request contexts with their size
//! limit, tool requests and results, the tool abstraction, and the worker settings.

use vstd::prelude::*;
use crate::text::{ascii_lower_seq, has_prefix, str_len, to_ascii_lowercase, u64_to_string, dec};

verus! {

broadcast use vstd::string::group_string_axioms;

/// Service name that the worker registers on the session bus.
pub const WORKER_SERVICE_NAME: &'static str = "org.loveyu.DevTools";

/// Object path that the worker exports.
pub const WORKER_OBJECT_PATH: &'static str = "/org/loveyu/DevTools";

/// D-Bus interface of the worker.
pub const WORKER_INTERFACE: &'static str = "org.loveyu.DevTools";

/// Largest text, in bytes, that the runner and the worker accept.
pub const MAX_TEXT_BYTES: usize = 2 * 1024 * 1024;

/// Largest JSON text, in bytes: the text limit.
pub const MAX_JSON_BYTES: usize = MAX_TEXT_BYTES;

/// The kind of a JSON document's top-level value.
#[derive(Debug, Clone, Copy, PartialEq, Eq, Structural)]
pub enum JsonKind {
    Null,
    Bool,
    Number,
    String,
    Array,
    Object,
}

#[verifier::external_type_specification]
#[verifier::external_body]
pub struct ExJsonError(serde_json::Error);

#[verifier::external_type_specification]
#[verifier::external_body]
pub struct ExJsonValue(serde_json::Value);

/// `Clone::clone` of `serde_json::Value`, which the derived `Clone` of a context calls.
/// Nothing is stated of the copy.
pub assume_specification[ <serde_json::Value as Clone>::clone ](v: &serde_json::Value) -> (r: serde_json::Value);

/// The kind of the JSON document `text` as `serde_json` reads it, or `None` where
/// serde_json refuses the text.
pub uninterp spec fn json_document_kind(text: Seq<char>) -> Option<JsonKind>;

/// `serde_json::from_str::<serde_json::Value>(text)`: the value read, with the kind
/// of its top level, or serde_json's error. Which texts serde_json accepts, and what
/// kind it reads, is named, not written out; the value itself is carried, not
/// inspected.
#[verifier::external_body]
fn parse_json_value(text: &str) -> (r: Result<(serde_json::Value, JsonKind), serde_json::Error>)
    ensures
        match r {
            Ok((_, k)) => json_document_kind(text@) == Some(k),
            Err(_) => json_document_kind(text@) is None,
        },
{
    match serde_json::from_str::<serde_json::Value>(text) {
        Ok(v) => {
            let k = match &v {
                serde_json::Value::Null => JsonKind::Null,
                serde_json::Value::Bool(_) => JsonKind::Bool,
                serde_json::Value::Number(_) => JsonKind::Number,
                serde_json::Value::String(_) => JsonKind::String,
                serde_json::Value::Array(_) => JsonKind::Array,
                serde_json::Value::Object(_) => JsonKind::Object,
            };
            Ok((v, k))
        },
        Err(e) => Err(e),
    }
}

/// The context that a request carries. A JSON context keeps the raw text, the value
/// that serde_json read from it, and the kind of that value's top level.
#[derive(Debug, Clone)]
pub enum Context {
    Empty,
    Json { raw: String, value: serde_json::Value, kind: JsonKind },
    Text { raw: String },
}

/// Why a context could not be built.
#[derive(Debug)]
pub enum ContextError {
    TooLarge { actual: usize, maximum: usize },
    InvalidJson(serde_json::Error),
}

/// The raw text of a context.
pub open spec fn context_raw(c: Context) -> Seq<char> {
    match c {
        Context::Empty => Seq::empty(),
        Context::Json { raw, .. } => raw@,
        Context::Text { raw } => raw@,
    }
}

/// Whether `raw` is within the text limit.
pub open spec fn within_text_limit(raw: Seq<char>) -> bool {
    str_len(raw) <= MAX_TEXT_BYTES
}

/// Whether `r` is the size error for `raw`.
pub open spec fn is_too_large_for(r: ContextError, raw: Seq<char>) -> bool {
    (r matches ContextError::TooLarge { actual, maximum } && actual == str_len(raw) && maximum == MAX_TEXT_BYTES)
}

fn validate_size(raw: &str) -> (r: Result<(), ContextError>)
    ensures
        r is Ok <==> within_text_limit(raw@),
        r is Err ==> is_too_large_for(r->Err_0, raw@),
{
    if raw.len() > MAX_TEXT_BYTES {
        return Err(ContextError::TooLarge { actual: raw.len(), maximum: MAX_TEXT_BYTES });
    }
    Ok(())
}

impl Context {
    /// A JSON context for `raw`: refused when it is over the text limit or when
    /// serde_json does not read it.
    pub fn from_json_text(raw: &str) -> (r: Result<Context, ContextError>)
        ensures
            !within_text_limit(raw@) ==> r is Err && is_too_large_for(r->Err_0, raw@),
            within_text_limit(raw@) ==> match json_document_kind(raw@) {
                Some(k) => (r matches Ok(Context::Json { raw: t, kind, .. }) && t@ == raw@ && kind == k),
                None => r matches Err(ContextError::InvalidJson(_)),
            },
    {
        match validate_size(raw) {
            Err(e) => return Err(e),
            Ok(()) => {},
        }
        match parse_json_value(raw) {
            Ok((value, kind)) => Ok(Context::Json { raw: String::from_str(raw), value, kind }),
            Err(e) => Err(ContextError::InvalidJson(e)),
        }
    }

    /// A plain text context for `raw`: refused when it is over the text limit.
    pub fn from_text(raw: &str) -> (r: Result<Context, ContextError>)
        ensures
            within_text_limit(raw@) ==> (r matches Ok(Context::Text { raw: t }) && t@ == raw@),
            !within_text_limit(raw@) ==> r is Err && is_too_large_for(r->Err_0, raw@),
    {
        match validate_size(raw) {
            Err(e) => Err(e),
            Ok(()) => Ok(Context::Text { raw: String::from_str(raw) }),
        }
    }

    /// The raw text of the context; empty for the empty context.
    pub fn raw_text(&self) -> (r: &str)
        ensures
            r@ == context_raw(*self),
    {
        match self {
            Context::Empty => {
                proof {
                    reveal_strlit("");
                }
                ""
            },
            Context::Json { raw, .. } => raw.as_str(),
            Context::Text { raw } => raw.as_str(),
        }
    }
}

/// The text that `serde_json::Error` displays. It is not stated.
#[verifier::external_body]
pub(crate) fn json_error_text(e: &serde_json::Error) -> (r: String) {
    format!("{e}")
}

/// The message of a too-large error.
pub open spec fn too_large_message(actual: usize, maximum: usize) -> Seq<char> {
    "JSON is too large: "@ + dec(actual as nat) + " bytes (maximum "@ + dec(maximum as nat) + ")"@
}

impl ContextError {
    /// The message that the error displays: `JSON is too large: <n> bytes (maximum
    /// <m>)`, or `invalid JSON: ` and serde_json's own message.
    pub fn message(&self) -> (r: String)
        ensures
            match self {
                ContextError::TooLarge { actual, maximum } => r@ == too_large_message(*actual, *maximum),
                ContextError::InvalidJson(_) => "invalid JSON: "@.is_prefix_of(r@),
            },
    {
        match self {
            ContextError::TooLarge { actual, maximum } => {
                let mut s = String::from_str("JSON is too large: ");
                let a = u64_to_string(*actual as u64);
                s.append(a.as_str());
                s.append(" bytes (maximum ");
                let m = u64_to_string(*maximum as u64);
                s.append(m.as_str());
                s.append(")");
                s
            },
            ContextError::InvalidJson(e) => {
                let mut s = String::from_str("invalid JSON: ");
                let t = json_error_text(e);
                s.append(t.as_str());
                s
            },
        }
    }
}

/// What the user wants done with a context.
#[derive(Debug, Clone, Copy, PartialEq, Eq, Structural)]
pub enum Action {
    Inspect,
    Convert,
    RecognizeText,
    ProcessBarcode,
    CompressImage,
    EditImage,
    WatermarkImage,
    EncryptText,
    ReadMetadata,
    PickColor,
}

/// A request that the worker hands to a tool.
#[derive(Debug, Clone)]
pub struct ToolRequest {
    pub context: Context,
    pub action: Action,
}

/// What a tool hands to the UI.
#[derive(Debug, Clone, PartialEq, Eq)]
pub struct ToolResult {
    pub payload: String,
}

/// Why a tool refused a request.
#[derive(Debug, Clone, PartialEq, Eq)]
pub struct ToolError {
    message: String,
}

impl ToolError {
    pub closed spec fn text(self) -> Seq<char> {
        self.message@
    }

    pub fn new(message: String) -> (e: ToolError)
        ensures
            e.text() == message@,
    {
        ToolError { message }
    }

    /// The message that the error displays.
    pub fn message(&self) -> (r: &str)
        ensures
            r@ == self.text(),
    {
        self.message.as_str()
    }
}

/// A business tool: which requests it takes and what it prepares from them.
pub trait Tool {
    /// The tool's id.
    spec fn tool_id(&self) -> Seq<char>;

    /// Whether the tool takes a request with this context and action.
    spec fn accepts(&self, context: Context, action: Action) -> bool;

    /// The payload that the tool prepares from an accepted context.
    spec fn payload_of(&self, context: Context) -> Seq<char>;

    fn id(&self) -> (r: &'static str)
        ensures
            r@ == self.tool_id(),
    ;

    fn can_handle(&self, context: &Context, action: Action) -> (r: bool)
        ensures
            r == self.accepts(*context, action),
    ;

    /// Runs the tool: the prepared payload where the request is accepted, an error
    /// otherwise.
    fn execute(&self, request: ToolRequest) -> (r: Result<ToolResult, ToolError>)
        ensures
            r is Ok <==> self.accepts(request.context, request.action),
            r is Ok ==> r->Ok_0.payload@ == self.payload_of(request.context),
    ;
}

/// Appearance of the web view; follows the desktop by default.
#[derive(Debug, Clone, Copy, PartialEq, Eq, Structural)]
pub enum ThemeMode {
    System,
    Light,
    Dark,
}

/// Language of the web view; `System` follows the desktop.
#[derive(Debug, Clone, Copy, PartialEq, Eq, Structural)]
pub enum LanguageMode {
    System,
    SimplifiedChinese,
    TraditionalChinese,
    English,
}

impl Default for ThemeMode {
    fn default() -> (r: ThemeMode)
        ensures
            r == ThemeMode::System,
    {
        ThemeMode::System
    }
}

impl Default for LanguageMode {
    fn default() -> (r: LanguageMode)
        ensures
            r == LanguageMode::System,
    {
        LanguageMode::System
    }
}

/// The settings that the worker's settings page reads and writes.
#[derive(Debug, Clone, PartialEq, Eq)]
pub struct Settings {
    pub show_tray: bool,
    pub autostart: bool,
    pub global_shortcut_enabled: bool,
    pub global_shortcut: String,
    pub quick_input_enabled: bool,
    pub quick_input_shortcut: String,
    pub quick_input_width: u32,
    pub quick_input_height: u32,
    pub theme: ThemeMode,
    pub language: LanguageMode,
}

/// The shortcut that opens the worker window unless the settings name another.
pub fn default_global_shortcut() -> (s: String)
    ensures
        s@ == "Ctrl+Alt+Space"@,
{
    String::from_str("Ctrl+Alt+Space")
}

/// The shortcut that opens quick input unless the settings name another.
pub fn default_quick_input_shortcut() -> (s: String)
    ensures
        s@ == "Ctrl+Alt+KeyI"@,
{
    String::from_str("Ctrl+Alt+KeyI")
}

/// Width of the quick input window unless the settings name another.
pub fn default_quick_input_width() -> (w: u32)
    ensures
        w == 560,
{
    560
}

/// Height of the quick input window unless the settings name another.
pub fn default_quick_input_height() -> (h: u32)
    ensures
        h == 56,
{
    56
}

/// Whether `s` holds the default settings: tray shown, no autostart, shortcuts and
/// quick input off with their default keys, a 560 by 56 quick input window, and the
/// desktop's theme and language.
pub open spec fn is_default_settings(s: Settings) -> bool {
    &&& s.show_tray
    &&& !s.autostart
    &&& !s.global_shortcut_enabled
    &&& s.global_shortcut@ == "Ctrl+Alt+Space"@
    &&& !s.quick_input_enabled
    &&& s.quick_input_shortcut@ == "Ctrl+Alt+KeyI"@
    &&& s.quick_input_width == 560
    &&& s.quick_input_height == 56
    &&& s.theme == ThemeMode::System
    &&& s.language == LanguageMode::System
}

impl Settings {
    /// A copy of the settings.
    pub fn duplicate(&self) -> (r: Settings)
        ensures
            r == *self,
    {
        Settings {
            show_tray: self.show_tray,
            autostart: self.autostart,
            global_shortcut_enabled: self.global_shortcut_enabled,
            global_shortcut: self.global_shortcut.clone(),
            quick_input_enabled: self.quick_input_enabled,
            quick_input_shortcut: self.quick_input_shortcut.clone(),
            quick_input_width: self.quick_input_width,
            quick_input_height: self.quick_input_height,
            theme: self.theme,
            language: self.language,
        }
    }
}

impl Default for Settings {
    fn default() -> (s: Settings)
        ensures
            is_default_settings(s),
    {
        Settings {
            show_tray: true,
            autostart: false,
            global_shortcut_enabled: false,
            global_shortcut: default_global_shortcut(),
            quick_input_enabled: false,
            quick_input_shortcut: default_quick_input_shortcut(),
            quick_input_width: default_quick_input_width(),
            quick_input_height: default_quick_input_height(),
            theme: ThemeMode::System,
            language: LanguageMode::System,
        }
    }
}

/// Whether `p` occurs in `l`.
pub open spec fn occurs_in(p: Seq<char>, l: Seq<char>) -> bool {
    exists|i: int| 0 <= i <= l.len() && p.is_prefix_of(#[trigger] l.skip(i))
}

/// Whether the lower-cased locale `l` names a traditional Chinese script or region.
pub open spec fn is_traditional_locale(l: Seq<char>) -> bool {
    ||| occurs_in("hant"@, l)
    ||| occurs_in("_tw"@, l)
    ||| occurs_in("-tw"@, l)
    ||| occurs_in("_hk"@, l)
    ||| occurs_in("-hk"@, l)
    ||| occurs_in("_mo"@, l)
    ||| occurs_in("-mo"@, l)
}

/// The interface language that a locale name selects: Chinese locales give simplified
/// or, for the Hant script and the Taiwan, Hong Kong and Macau regions, traditional
/// Chinese; every other locale gives English. Case does not matter.
pub open spec fn locale_language(locale: Seq<char>) -> LanguageMode {
    let l = ascii_lower_seq(locale);
    if !"zh"@.is_prefix_of(l) {
        LanguageMode::English
    } else if is_traditional_locale(l) {
        LanguageMode::TraditionalChinese
    } else {
        LanguageMode::SimplifiedChinese
    }
}

/// Whether `p` occurs in `l`.
fn contains_from(l: &str, p: &str) -> (r: bool)
    ensures
        r == occurs_in(p@, l@),
{
    let chars = crate::text::chars_of(l);
    let mut i: usize = 0;
    while i < chars.len()
        invariant
            chars@ == l@,
            i <= chars.len(),
            forall|j: int| 0 <= j < i ==> !p@.is_prefix_of(#[trigger] l@.skip(j)),
        decreases chars.len() - i,
    {
        let rest = l.substring_char(i, chars.len());
        assert(rest@ == l@.skip(i as int));
        if has_prefix(rest, p) {
            return true;
        }
        i = i + 1;
    }
    let rest = l.substring_char(i, chars.len());
    assert(rest@ == l@.skip(i as int));
    has_prefix(rest, p)
}

impl LanguageMode {
    /// The interface language for a locale name such as `zh_CN.UTF-8`,
    /// `zh_Hant_HK.UTF-8`, `zh-TW` or `en_GB.UTF-8`.
    pub fn from_locale(locale: &str) -> (r: LanguageMode)
        ensures
            r == locale_language(locale@),
    {
        let lowered = to_ascii_lowercase(locale);
        let l = lowered.as_str();
        if !has_prefix(l, "zh") {
            return LanguageMode::English;
        }
        let traditional = contains_from(l, "hant") || contains_from(l, "_tw") || contains_from(l, "-tw")
            || contains_from(l, "_hk") || contains_from(l, "-hk") || contains_from(l, "_mo")
            || contains_from(l, "-mo");
        if traditional {
            LanguageMode::TraditionalChinese
        } else {
            LanguageMode::SimplifiedChinese
        }
    }
}

} // verus!
