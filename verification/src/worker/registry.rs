//! The tools that the worker registers, and how a tool request is turned into a
//! tool run and an application event.

use vstd::prelude::*;
use crate::model::{Action, Context, ContextError, Tool, ToolError, ToolRequest, ToolResult,
    json_document_kind, too_large_message, within_text_limit, MAX_TEXT_BYTES};
use crate::text::{same_text, str_len};
use crate::tools::{BarcodeTool, ColorTool, ConvertTool, CryptoTool, ImageCompressionTool, ImageEditorTool,
    JsonTool, MetadataTool, OcrTool, WatermarkTool};

verus! {

broadcast use vstd::string::group_string_axioms;

/// One of the business tools.
#[derive(Debug, Clone, Copy, PartialEq, Eq, Structural)]
pub enum ToolKind {
    Json,
    Convert,
    Ocr,
    Barcode,
    ImageCompress,
    ImageEditor,
    Watermark,
    Crypto,
    Metadata,
    Color,
}

/// The id of a tool.
pub open spec fn kind_id(k: ToolKind) -> Seq<char> {
    match k {
        ToolKind::Json => "json"@,
        ToolKind::Convert => "convert"@,
        ToolKind::Ocr => "ocr"@,
        ToolKind::Barcode => "barcode"@,
        ToolKind::ImageCompress => "image-compress"@,
        ToolKind::ImageEditor => "image-editor"@,
        ToolKind::Watermark => "watermark"@,
        ToolKind::Crypto => "crypto"@,
        ToolKind::Metadata => "metadata"@,
        ToolKind::Color => "color"@,
    }
}

/// The tool with id `id`, if any.
pub open spec fn kind_of_id(id: Seq<char>) -> Option<ToolKind> {
    if id == "json"@ {
        Some(ToolKind::Json)
    } else if id == "convert"@ {
        Some(ToolKind::Convert)
    } else if id == "ocr"@ {
        Some(ToolKind::Ocr)
    } else if id == "barcode"@ {
        Some(ToolKind::Barcode)
    } else if id == "image-compress"@ {
        Some(ToolKind::ImageCompress)
    } else if id == "image-editor"@ {
        Some(ToolKind::ImageEditor)
    } else if id == "watermark"@ {
        Some(ToolKind::Watermark)
    } else if id == "crypto"@ {
        Some(ToolKind::Crypto)
    } else if id == "metadata"@ {
        Some(ToolKind::Metadata)
    } else if id == "color"@ {
        Some(ToolKind::Color)
    } else {
        None
    }
}

/// The ids of the tools are distinct: the id names its tool again.
pub proof fn lemma_kind_id_names_kind(k: ToolKind)
    ensures
        kind_of_id(kind_id(k)) == Some(k),
{
    reveal_strlit("json");
    reveal_strlit("convert");
    reveal_strlit("ocr");
    reveal_strlit("barcode");
    reveal_strlit("image-compress");
    reveal_strlit("image-editor");
    reveal_strlit("watermark");
    reveal_strlit("crypto");
    reveal_strlit("metadata");
    reveal_strlit("color");
    assert("json"@.len() == 4 && "convert"@.len() == 7 && "ocr"@.len() == 3 && "barcode"@.len() == 7);
    assert("image-compress"@.len() == 14 && "image-editor"@.len() == 12 && "watermark"@.len() == 9);
    assert("crypto"@.len() == 6 && "metadata"@.len() == 8 && "color"@.len() == 5);
    assert("convert"@[0] != "barcode"@[0]);
}

impl ToolKind {
    /// The tool's id.
    pub fn id(&self) -> (r: &'static str)
        ensures
            r@ == kind_id(*self),
    {
        match self {
            ToolKind::Json => JsonTool.id(),
            ToolKind::Convert => ConvertTool.id(),
            ToolKind::Ocr => OcrTool.id(),
            ToolKind::Barcode => BarcodeTool.id(),
            ToolKind::ImageCompress => ImageCompressionTool.id(),
            ToolKind::ImageEditor => ImageEditorTool.id(),
            ToolKind::Watermark => WatermarkTool.id(),
            ToolKind::Crypto => CryptoTool.id(),
            ToolKind::Metadata => MetadataTool.id(),
            ToolKind::Color => ColorTool.id(),
        }
    }

    /// Whether the tool takes a request with this context and action.
    pub open spec fn accepts(self, context: Context, action: Action) -> bool {
        match self {
            ToolKind::Json => JsonTool.accepts(context, action),
            ToolKind::Convert => ConvertTool.accepts(context, action),
            ToolKind::Ocr => OcrTool.accepts(context, action),
            ToolKind::Barcode => BarcodeTool.accepts(context, action),
            ToolKind::ImageCompress => ImageCompressionTool.accepts(context, action),
            ToolKind::ImageEditor => ImageEditorTool.accepts(context, action),
            ToolKind::Watermark => WatermarkTool.accepts(context, action),
            ToolKind::Crypto => CryptoTool.accepts(context, action),
            ToolKind::Metadata => MetadataTool.accepts(context, action),
            ToolKind::Color => ColorTool.accepts(context, action),
        }
    }

    /// The payload the tool prepares from an accepted context.
    pub open spec fn payload_of(self, context: Context) -> Seq<char> {
        match self {
            ToolKind::Json => JsonTool.payload_of(context),
            ToolKind::Convert => ConvertTool.payload_of(context),
            ToolKind::Ocr => OcrTool.payload_of(context),
            ToolKind::Barcode => BarcodeTool.payload_of(context),
            ToolKind::ImageCompress => ImageCompressionTool.payload_of(context),
            ToolKind::ImageEditor => ImageEditorTool.payload_of(context),
            ToolKind::Watermark => WatermarkTool.payload_of(context),
            ToolKind::Crypto => CryptoTool.payload_of(context),
            ToolKind::Metadata => MetadataTool.payload_of(context),
            ToolKind::Color => ColorTool.payload_of(context),
        }
    }

    fn can_handle(&self, context: &Context, action: Action) -> (r: bool)
        ensures
            r == self.accepts(*context, action),
    {
        match self {
            ToolKind::Json => JsonTool.can_handle(context, action),
            ToolKind::Convert => ConvertTool.can_handle(context, action),
            ToolKind::Ocr => OcrTool.can_handle(context, action),
            ToolKind::Barcode => BarcodeTool.can_handle(context, action),
            ToolKind::ImageCompress => ImageCompressionTool.can_handle(context, action),
            ToolKind::ImageEditor => ImageEditorTool.can_handle(context, action),
            ToolKind::Watermark => WatermarkTool.can_handle(context, action),
            ToolKind::Crypto => CryptoTool.can_handle(context, action),
            ToolKind::Metadata => MetadataTool.can_handle(context, action),
            ToolKind::Color => ColorTool.can_handle(context, action),
        }
    }

    fn execute(&self, request: ToolRequest) -> (r: Result<ToolResult, ToolError>)
        ensures
            r is Ok <==> self.accepts(request.context, request.action),
            r is Ok ==> r->Ok_0.payload@ == self.payload_of(request.context),
    {
        match self {
            ToolKind::Json => JsonTool.execute(request),
            ToolKind::Convert => ConvertTool.execute(request),
            ToolKind::Ocr => OcrTool.execute(request),
            ToolKind::Barcode => BarcodeTool.execute(request),
            ToolKind::ImageCompress => ImageCompressionTool.execute(request),
            ToolKind::ImageEditor => ImageEditorTool.execute(request),
            ToolKind::Watermark => WatermarkTool.execute(request),
            ToolKind::Crypto => CryptoTool.execute(request),
            ToolKind::Metadata => MetadataTool.execute(request),
            ToolKind::Color => ColorTool.execute(request),
        }
    }
}

/// The tools that the worker registers, each id once.
pub struct ToolRegistry {
    tools: Vec<ToolKind>,
}

/// Whether no two tools of `tools` share an id.
pub open spec fn distinct_tools(tools: Seq<ToolKind>) -> bool {
    forall|i: int, j: int| 0 <= i < j < tools.len() ==> tools[i] != tools[j]
}

/// The tools registered by a standard worker, in registration order.
pub open spec fn standard_tools() -> Seq<ToolKind> {
    seq![
        ToolKind::Json,
        ToolKind::Convert,
        ToolKind::Ocr,
        ToolKind::Barcode,
        ToolKind::ImageCompress,
        ToolKind::ImageEditor,
        ToolKind::Watermark,
        ToolKind::Crypto,
        ToolKind::Metadata,
        ToolKind::Color,
    ]
}

/// The action that requests to the tool with id `id` carry.
pub open spec fn action_for(k: ToolKind) -> Action {
    match k {
        ToolKind::Json => Action::Inspect,
        ToolKind::Convert => Action::Convert,
        ToolKind::Ocr => Action::RecognizeText,
        ToolKind::Barcode => Action::ProcessBarcode,
        ToolKind::ImageCompress => Action::CompressImage,
        ToolKind::ImageEditor => Action::EditImage,
        ToolKind::Watermark => Action::WatermarkImage,
        ToolKind::Crypto => Action::EncryptText,
        ToolKind::Metadata => Action::ReadMetadata,
        ToolKind::Color => Action::PickColor,
    }
}

/// The message of an unknown tool id.
pub open spec fn unknown_tool_message(id: Seq<char>) -> Seq<char> {
    "unknown tool: "@ + id
}

/// Whether `r` is what running the registered tool `k` on `payload` gives: the JSON
/// tool reads the payload as JSON and the conversion tool as text, both within the
/// text limit, and both hand it back unchanged; the page tools ignore the payload
/// and give an empty one.
pub open spec fn tool_run_ok(k: ToolKind, payload: Seq<char>, r: Result<ToolResult, ToolError>) -> bool {
    match k {
        ToolKind::Json => {
            &&& (r is Ok <==> within_text_limit(payload) && json_document_kind(payload) is Some)
            &&& r is Ok ==> r->Ok_0.payload@ == payload
            &&& !within_text_limit(payload) ==> r is Err && r->Err_0.text() == too_large_message(
                str_len(payload),
                MAX_TEXT_BYTES,
            )
        },
        ToolKind::Convert => {
            &&& (r is Ok <==> within_text_limit(payload))
            &&& r is Ok ==> r->Ok_0.payload@ == payload
            &&& !within_text_limit(payload) ==> r is Err && r->Err_0.text() == too_large_message(
                str_len(payload),
                MAX_TEXT_BYTES,
            )
        },
        _ => r is Ok && r->Ok_0.payload@ == Seq::<char>::empty(),
    }
}

fn context_error_to_tool_error(e: ContextError) -> (r: ToolError)
    ensures
        e matches ContextError::TooLarge { actual, maximum } ==> r.text() == too_large_message(actual, maximum),
{
    ToolError::new(e.message())
}

impl ToolRegistry {
    /// The registered tools, in registration order.
    pub closed spec fn tools(self) -> Seq<ToolKind> {
        self.tools@
    }

    /// The registry's invariant: each tool once.
    pub closed spec fn wf(self) -> bool {
        distinct_tools(self.tools@)
    }

    /// The registry of a standard worker: the JSON, conversion, OCR, barcode, image
    /// compression, image editor, watermark, text encryption, metadata and colour picker
    /// tools.
    pub fn standard() -> (r: ToolRegistry)
        ensures
            r.wf(),
            r.tools() == standard_tools(),
    {
        let mut registry = ToolRegistry { tools: Vec::new() };
        registry.register(ToolKind::Json);
        registry.register(ToolKind::Convert);
        registry.register(ToolKind::Ocr);
        registry.register(ToolKind::Barcode);
        registry.register(ToolKind::ImageCompress);
        registry.register(ToolKind::ImageEditor);
        registry.register(ToolKind::Watermark);
        registry.register(ToolKind::Crypto);
        registry.register(ToolKind::Metadata);
        registry.register(ToolKind::Color);
        assert(registry.tools@ =~= standard_tools());
        registry
    }

    /// Registers `kind` under its id; a tool already registered stays where it is.
    fn register(&mut self, kind: ToolKind)
        requires
            old(self).wf(),
        ensures
            final(self).wf(),
            final(self).tools() == (if old(self).tools().contains(kind) {
                old(self).tools()
            } else {
                old(self).tools().push(kind)
            }),
    {
        let mut i: usize = 0;
        while i < self.tools.len()
            invariant
                i <= self.tools.len(),
                distinct_tools(self.tools@),
                forall|j: int| 0 <= j < i ==> self.tools@[j] != kind,
            decreases self.tools.len() - i,
        {
            if self.tools[i] == kind {
                return;
            }
            i = i + 1;
        }
        self.tools.push(kind);
    }

    /// Finds the registered tool with id `id`.
    fn lookup(&self, id: &str) -> (r: Option<ToolKind>)
        ensures
            match r {
                Some(k) => self.tools().contains(k) && kind_id(k) == id@,
                None => forall|k: ToolKind| self.tools().contains(k) ==> kind_id(k) != id@,
            },
    {
        let mut i: usize = 0;
        while i < self.tools.len()
            invariant
                i <= self.tools.len(),
                forall|j: int| 0 <= j < i ==> kind_id(#[trigger] self.tools@[j]) != id@,
            decreases self.tools.len() - i,
        {
            let k = self.tools[i];
            if same_text(k.id(), id) {
                return Some(k);
            }
            i = i + 1;
        }
        None
    }

    /// Runs the tool with id `id` on `payload`: the tool's context is built from the
    /// payload, the request carries the tool's action, and the tool runs it. An id
    /// that no registered tool has gives `unknown tool: <id>`.
    pub fn execute(&self, tool_id: &str, payload: &str) -> (r: Result<ToolResult, ToolError>)
        ensures
            (exists|k: ToolKind| self.tools().contains(k) && kind_id(k) == tool_id@) || (r is Err
                && r->Err_0.text() == unknown_tool_message(tool_id@)),
            forall|k: ToolKind| self.tools().contains(k) && kind_id(k) == tool_id@ ==> tool_run_ok(k, payload@, r),
    {
        let kind = match self.lookup(tool_id) {
            Some(k) => k,
            None => {
                let mut message = String::from_str("unknown tool: ");
                message.append(tool_id);
                return Err(ToolError::new(message));
            },
        };
        proof {
            lemma_kind_id_names_kind(kind);
            assert forall|k: ToolKind| self.tools().contains(k) && kind_id(k) == tool_id@ implies k == kind by {
                lemma_kind_id_names_kind(k);
            }
        }
        let context = match kind {
            ToolKind::Json => match Context::from_json_text(payload) {
                Ok(c) => c,
                Err(e) => return Err(context_error_to_tool_error(e)),
            },
            ToolKind::Convert => match Context::from_text(payload) {
                Ok(c) => c,
                Err(e) => return Err(context_error_to_tool_error(e)),
            },
            _ => Context::Empty,
        };
        let action = match kind {
            ToolKind::Json => Action::Inspect,
            ToolKind::Convert => Action::Convert,
            ToolKind::Ocr => Action::RecognizeText,
            ToolKind::Barcode => Action::ProcessBarcode,
            ToolKind::ImageCompress => Action::CompressImage,
            ToolKind::ImageEditor => Action::EditImage,
            ToolKind::Watermark => Action::WatermarkImage,
            ToolKind::Crypto => Action::EncryptText,
            ToolKind::Metadata => Action::ReadMetadata,
            ToolKind::Color => Action::PickColor,
        };
        if !kind.can_handle(&context, action) {
            let mut message = String::from_str("tool ");
            message.append(tool_id);
            message.append(" cannot handle this request");
            return Err(ToolError::new(message));
        }
        kind.execute(ToolRequest { context, action })
    }
}

/// The application events that a tool request opens.
#[derive(Debug, Clone, PartialEq, Eq)]
pub enum ToolEvent {
    OpenJson(String),
    OpenConvert(String),
    OpenOcr,
    OpenBarcode,
    OpenImageCompress,
    OpenImageEditor,
    OpenWatermark,
    OpenCrypto,
    OpenMetadata,
    OpenColor,
}

/// Whether `r` is what a tool request to the registered tool `k` with `payload`
/// gives: the JSON and conversion pages open with the payload where the tool takes
/// it (else the size error for an oversized payload), and the page tools always open.
pub open spec fn tool_event_ok(k: ToolKind, payload: Seq<char>, r: Result<ToolEvent, String>) -> bool {
    match k {
        ToolKind::Json => {
            &&& (r is Ok <==> within_text_limit(payload) && json_document_kind(payload) is Some)
            &&& r is Ok ==> (r matches Ok(ToolEvent::OpenJson(p)) && p@ == payload)
            &&& !within_text_limit(payload) ==> (r matches Err(m) && m@ == too_large_message(
                str_len(payload),
                MAX_TEXT_BYTES,
            ))
        },
        ToolKind::Convert => {
            &&& (r is Ok <==> within_text_limit(payload))
            &&& r is Ok ==> (r matches Ok(ToolEvent::OpenConvert(p)) && p@ == payload)
            &&& !within_text_limit(payload) ==> (r matches Err(m) && m@ == too_large_message(
                str_len(payload),
                MAX_TEXT_BYTES,
            ))
        },
        ToolKind::Ocr => r == Ok::<ToolEvent, String>(ToolEvent::OpenOcr),
        ToolKind::Barcode => r == Ok::<ToolEvent, String>(ToolEvent::OpenBarcode),
        ToolKind::ImageCompress => r == Ok::<ToolEvent, String>(ToolEvent::OpenImageCompress),
        ToolKind::ImageEditor => r == Ok::<ToolEvent, String>(ToolEvent::OpenImageEditor),
        ToolKind::Watermark => r == Ok::<ToolEvent, String>(ToolEvent::OpenWatermark),
        ToolKind::Crypto => r == Ok::<ToolEvent, String>(ToolEvent::OpenCrypto),
        ToolKind::Metadata => r == Ok::<ToolEvent, String>(ToolEvent::OpenMetadata),
        ToolKind::Color => r == Ok::<ToolEvent, String>(ToolEvent::OpenColor),
    }
}

/// Turns a tool request from the platform's IPC into an application event: the tool
/// runs first, and its refusal is the error; then the tool's id picks the event, which
/// carries the prepared payload for the JSON and conversion pages.
pub fn tool_event(registry: &ToolRegistry, tool: &str, payload: &str) -> (r: Result<ToolEvent, String>)
    ensures
        (exists|k: ToolKind| registry.tools().contains(k) && kind_id(k) == tool@) || (r matches Err(m)
            && m@ == unknown_tool_message(tool@)),
        forall|k: ToolKind|
            registry.tools().contains(k) && kind_id(k) == tool@ ==> tool_event_ok(k, payload@, r),
{
    proof {
        reveal_strlit("json");
        reveal_strlit("convert");
        reveal_strlit("ocr");
        reveal_strlit("barcode");
        reveal_strlit("image-compress");
        reveal_strlit("image-editor");
        reveal_strlit("watermark");
        reveal_strlit("crypto");
        reveal_strlit("metadata");
        reveal_strlit("color");
        assert("json"@.len() == 4 && "convert"@.len() == 7 && "ocr"@.len() == 3 && "barcode"@.len() == 7);
        assert("image-compress"@.len() == 14 && "image-editor"@.len() == 12 && "watermark"@.len() == 9);
        assert("crypto"@.len() == 6 && "metadata"@.len() == 8 && "color"@.len() == 5);
        assert("convert"@[0] != "barcode"@[0]);
    }
    let result = match registry.execute(tool, payload) {
        Ok(result) => result,
        Err(error) => return Err(String::from_str(error.message())),
    };
    if same_text(tool, "json") {
        Ok(ToolEvent::OpenJson(result.payload))
    } else if same_text(tool, "convert") {
        Ok(ToolEvent::OpenConvert(result.payload))
    } else if same_text(tool, "ocr") {
        Ok(ToolEvent::OpenOcr)
    } else if same_text(tool, "barcode") {
        Ok(ToolEvent::OpenBarcode)
    } else if same_text(tool, "image-compress") {
        Ok(ToolEvent::OpenImageCompress)
    } else if same_text(tool, "image-editor") {
        Ok(ToolEvent::OpenImageEditor)
    } else if same_text(tool, "watermark") {
        Ok(ToolEvent::OpenWatermark)
    } else if same_text(tool, "crypto") {
        Ok(ToolEvent::OpenCrypto)
    } else if same_text(tool, "metadata") {
        Ok(ToolEvent::OpenMetadata)
    } else if same_text(tool, "color") {
        Ok(ToolEvent::OpenColor)
    } else {
        let mut message = String::from_str("unsupported tool: ");
        message.append(tool);
        Err(message)
    }
}

} // verus!
