//! How the worker talks to its web front end: the page that each application event
//! opens, the window size it uses, and the scripts that hand the front end its
//! initial state and its events. The JSON texts inside the scripts are made by the
//! caller.

use vstd::prelude::*;
use crate::worker::registry::ToolEvent;

verus! {

broadcast use vstd::string::group_string_axioms;

/// A page of the web front end.
#[derive(Debug, Clone, Copy, PartialEq, Eq, Structural)]
pub enum WebPage {
    Json,
    Convert,
    Ocr,
    Barcode,
    ImageCompress,
    ImageEditor,
    Watermark,
    Crypto,
    Metadata,
    Color,
    Settings,
    Launcher,
}

/// The name of the front-end event that opens a page.
pub open spec fn page_event_name(p: WebPage) -> Seq<char> {
    match p {
        WebPage::Json => "devtools:open-json"@,
        WebPage::Convert => "devtools:open-convert"@,
        WebPage::Ocr => "devtools:open-ocr"@,
        WebPage::Barcode => "devtools:open-barcode"@,
        WebPage::ImageCompress => "devtools:open-image-compress"@,
        WebPage::ImageEditor => "devtools:open-image-editor"@,
        WebPage::Watermark => "devtools:open-watermark"@,
        WebPage::Crypto => "devtools:open-crypto"@,
        WebPage::Metadata => "devtools:open-metadata"@,
        WebPage::Color => "devtools:open-color"@,
        WebPage::Settings => "devtools:open-settings"@,
        WebPage::Launcher => "devtools:open-launcher"@,
    }
}

impl WebPage {
    /// The name of the event that opens the page.
    pub fn event_name(self) -> (r: &'static str)
        ensures
            r@ == page_event_name(self),
    {
        match self {
            WebPage::Json => "devtools:open-json",
            WebPage::Convert => "devtools:open-convert",
            WebPage::Ocr => "devtools:open-ocr",
            WebPage::Barcode => "devtools:open-barcode",
            WebPage::ImageCompress => "devtools:open-image-compress",
            WebPage::ImageEditor => "devtools:open-image-editor",
            WebPage::Watermark => "devtools:open-watermark",
            WebPage::Crypto => "devtools:open-crypto",
            WebPage::Metadata => "devtools:open-metadata",
            WebPage::Color => "devtools:open-color",
            WebPage::Settings => "devtools:open-settings",
            WebPage::Launcher => "devtools:open-launcher",
        }
    }

    /// Whether the page uses the small launcher window; every other page uses the
    /// workspace size.
    pub fn uses_launcher_size(self) -> (r: bool)
        ensures
            r == (self == WebPage::Launcher),
    {
        match self {
            WebPage::Launcher => true,
            _ => false,
        }
    }
}

/// The page that an application event opens, and the text it carries (the JSON
/// workbench's and the conversion page's payload).
pub open spec fn event_page(e: ToolEvent) -> (WebPage, Option<Seq<char>>) {
    match e {
        ToolEvent::OpenJson(p) => (WebPage::Json, Some(p@)),
        ToolEvent::OpenConvert(p) => (WebPage::Convert, Some(p@)),
        ToolEvent::OpenOcr => (WebPage::Ocr, None),
        ToolEvent::OpenBarcode => (WebPage::Barcode, None),
        ToolEvent::OpenImageCompress => (WebPage::ImageCompress, None),
        ToolEvent::OpenImageEditor => (WebPage::ImageEditor, None),
        ToolEvent::OpenWatermark => (WebPage::Watermark, None),
        ToolEvent::OpenCrypto => (WebPage::Crypto, None),
        ToolEvent::OpenMetadata => (WebPage::Metadata, None),
        ToolEvent::OpenColor => (WebPage::Color, None),
    }
}

/// The page that an application event opens, and the payload it carries.
pub fn page_for_event(event: ToolEvent) -> (r: (WebPage, Option<String>))
    ensures
        r.0 == event_page(event).0,
        match r.1 {
            Some(p) => event_page(event).1 == Some(p@),
            None => event_page(event).1 is None,
        },
{
    match event {
        ToolEvent::OpenJson(p) => (WebPage::Json, Some(p)),
        ToolEvent::OpenConvert(p) => (WebPage::Convert, Some(p)),
        ToolEvent::OpenOcr => (WebPage::Ocr, None),
        ToolEvent::OpenBarcode => (WebPage::Barcode, None),
        ToolEvent::OpenImageCompress => (WebPage::ImageCompress, None),
        ToolEvent::OpenImageEditor => (WebPage::ImageEditor, None),
        ToolEvent::OpenWatermark => (WebPage::Watermark, None),
        ToolEvent::OpenCrypto => (WebPage::Crypto, None),
        ToolEvent::OpenMetadata => (WebPage::Metadata, None),
        ToolEvent::OpenColor => (WebPage::Color, None),
    }
}

/// The script that hands an event to the front end: to its dispatcher where it has
/// one, else onto the list of events that wait for it. `name_json` and `detail_json`
/// are the JSON texts of the event's name and detail.
pub open spec fn dispatch_script_text(name_json: Seq<char>, detail_json: Seq<char>) -> Seq<char> {
    "window.__DEVTOOLS_DISPATCH__\n? window.__DEVTOOLS_DISPATCH__("@ + name_json + ", "@ + detail_json
        + ")\n: window.__DEVTOOLS_PENDING_EVENTS__.push({ name: "@ + name_json + ", detail: "@ + detail_json
        + " });"@
}

/// The script that hands an event to the front end.
pub fn dispatch_script(name_json: &str, detail_json: &str) -> (r: String)
    ensures
        r@ == dispatch_script_text(name_json@, detail_json@),
{
    let mut s = String::from_str("window.__DEVTOOLS_DISPATCH__\n? window.__DEVTOOLS_DISPATCH__(");
    s.append(name_json);
    s.append(", ");
    s.append(detail_json);
    s.append(")\n: window.__DEVTOOLS_PENDING_EVENTS__.push({ name: ");
    s.append(name_json);
    s.append(", detail: ");
    s.append(detail_json);
    s.append(" });");
    s
}

/// The script that runs before the front end loads: its initial state (given as JSON
/// text) and an empty list of waiting events.
pub fn initialization_script(state_json: &str) -> (r: String)
    ensures
        r@ == "window.__DEVTOOLS_INITIAL_STATE__ = "@ + state_json@ + ";\nwindow.__DEVTOOLS_PENDING_EVENTS__ = [];"@,
{
    let mut s = String::from_str("window.__DEVTOOLS_INITIAL_STATE__ = ");
    s.append(state_json);
    s.append(";\nwindow.__DEVTOOLS_PENDING_EVENTS__ = [];");
    s
}

} // verus!
