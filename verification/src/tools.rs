//! The business tools: each takes one kind of context with one action and prepares
//! the payload that the web front end shows.

use vstd::prelude::*;
use crate::model::{Action, Context, Tool, ToolError, ToolRequest, ToolResult, context_raw};

verus! {

broadcast use vstd::string::group_string_axioms;

/// The JSON tool takes a JSON context for inspection and hands its text on unchanged.
#[derive(Debug, Default)]
pub struct JsonTool;

/// The conversion tool takes a plain text context and hands its text on unchanged.
#[derive(Debug, Default)]
pub struct ConvertTool;

/// The OCR tool opens the text recognition page; it takes an empty context.
#[derive(Debug, Default)]
pub struct OcrTool;

/// The barcode tool opens the barcode and QR code page; it takes an empty context.
#[derive(Debug, Default)]
pub struct BarcodeTool;

/// The image compression tool opens its page; it takes an empty context.
#[derive(Debug, Default)]
pub struct ImageCompressionTool;

/// The image editor tool opens its page; it takes an empty context.
#[derive(Debug, Default)]
pub struct ImageEditorTool;

/// The image watermark tool opens its page; it takes an empty context.
#[derive(Debug, Default)]
pub struct WatermarkTool;

/// The text encryption tool opens its page; it takes an empty context.
#[derive(Debug, Default)]
pub struct CryptoTool;

/// The media metadata tool opens its page; it takes an empty context.
#[derive(Debug, Default)]
pub struct MetadataTool;

/// The colour picker tool opens its page; it takes an empty context.
#[derive(Debug, Default)]
pub struct ColorTool;

/// The refusal message of a tool labelled `label`.
pub open spec fn refusal_message(label: Seq<char>) -> Seq<char> {
    label + " tool cannot handle this request"@
}

fn refusal(label: &str) -> (e: ToolError)
    ensures
        e.text() == refusal_message(label@),
{
    let mut s = String::from_str(label);
    s.append(" tool cannot handle this request");
    ToolError::new(s)
}

/// Runs a page-opening tool, given whether the tool takes the request: an empty
/// payload where it does, else the refusal `<label> tool cannot handle this request`.
pub fn execute_empty_tool(accepted: bool, label: &str) -> (r: Result<ToolResult, ToolError>)
    ensures
        r is Ok <==> accepted,
        r is Ok ==> r->Ok_0.payload@ == Seq::<char>::empty(),
        r is Err ==> r->Err_0.text() == refusal_message(label@),
{
    if !accepted {
        return Err(refusal(label));
    }
    Ok(ToolResult { payload: String::new() })
}

impl Tool for JsonTool {
    open spec fn tool_id(&self) -> Seq<char> {
        "json"@
    }

    open spec fn accepts(&self, context: Context, action: Action) -> bool {
        context is Json && action == Action::Inspect
    }

    open spec fn payload_of(&self, context: Context) -> Seq<char> {
        context_raw(context)
    }

    fn id(&self) -> (r: &'static str) {
        "json"
    }

    fn can_handle(&self, context: &Context, action: Action) -> (r: bool) {
        (match context {
            Context::Json { .. } => true,
            _ => false,
        }) && action == Action::Inspect
    }

    fn execute(&self, request: ToolRequest) -> (r: Result<ToolResult, ToolError>) {
        if !self.can_handle(&request.context, request.action) {
            return Err(ToolError::new(String::from_str("JSON tool cannot handle this request")));
        }
        Ok(ToolResult { payload: String::from_str(request.context.raw_text()) })
    }
}

impl Tool for ConvertTool {
    open spec fn tool_id(&self) -> Seq<char> {
        "convert"@
    }

    open spec fn accepts(&self, context: Context, action: Action) -> bool {
        context is Text && action == Action::Convert
    }

    open spec fn payload_of(&self, context: Context) -> Seq<char> {
        context_raw(context)
    }

    fn id(&self) -> (r: &'static str) {
        "convert"
    }

    fn can_handle(&self, context: &Context, action: Action) -> (r: bool) {
        (match context {
            Context::Text { .. } => true,
            _ => false,
        }) && action == Action::Convert
    }

    fn execute(&self, request: ToolRequest) -> (r: Result<ToolResult, ToolError>) {
        if !self.can_handle(&request.context, request.action) {
            return Err(ToolError::new(String::from_str("convert tool cannot handle this request")));
        }
        Ok(ToolResult { payload: String::from_str(request.context.raw_text()) })
    }
}

impl Tool for OcrTool {
    open spec fn tool_id(&self) -> Seq<char> {
        "ocr"@
    }

    open spec fn accepts(&self, context: Context, action: Action) -> bool {
        context is Empty && action == Action::RecognizeText
    }

    open spec fn payload_of(&self, context: Context) -> Seq<char> {
        Seq::empty()
    }

    fn id(&self) -> (r: &'static str) {
        "ocr"
    }

    fn can_handle(&self, context: &Context, action: Action) -> (r: bool) {
        (match context {
            Context::Empty => true,
            _ => false,
        }) && action == Action::RecognizeText
    }

    fn execute(&self, request: ToolRequest) -> (r: Result<ToolResult, ToolError>) {
        execute_empty_tool(self.can_handle(&request.context, request.action), "OCR")
    }
}

impl Tool for BarcodeTool {
    open spec fn tool_id(&self) -> Seq<char> {
        "barcode"@
    }

    open spec fn accepts(&self, context: Context, action: Action) -> bool {
        context is Empty && action == Action::ProcessBarcode
    }

    open spec fn payload_of(&self, context: Context) -> Seq<char> {
        Seq::empty()
    }

    fn id(&self) -> (r: &'static str) {
        "barcode"
    }

    fn can_handle(&self, context: &Context, action: Action) -> (r: bool) {
        (match context {
            Context::Empty => true,
            _ => false,
        }) && action == Action::ProcessBarcode
    }

    fn execute(&self, request: ToolRequest) -> (r: Result<ToolResult, ToolError>) {
        execute_empty_tool(self.can_handle(&request.context, request.action), "barcode")
    }
}

impl Tool for ImageCompressionTool {
    open spec fn tool_id(&self) -> Seq<char> {
        "image-compress"@
    }

    open spec fn accepts(&self, context: Context, action: Action) -> bool {
        context is Empty && action == Action::CompressImage
    }

    open spec fn payload_of(&self, context: Context) -> Seq<char> {
        Seq::empty()
    }

    fn id(&self) -> (r: &'static str) {
        "image-compress"
    }

    fn can_handle(&self, context: &Context, action: Action) -> (r: bool) {
        (match context {
            Context::Empty => true,
            _ => false,
        }) && action == Action::CompressImage
    }

    fn execute(&self, request: ToolRequest) -> (r: Result<ToolResult, ToolError>) {
        execute_empty_tool(self.can_handle(&request.context, request.action), "image compression")
    }
}

impl Tool for ImageEditorTool {
    open spec fn tool_id(&self) -> Seq<char> {
        "image-editor"@
    }

    open spec fn accepts(&self, context: Context, action: Action) -> bool {
        context is Empty && action == Action::EditImage
    }

    open spec fn payload_of(&self, context: Context) -> Seq<char> {
        Seq::empty()
    }

    fn id(&self) -> (r: &'static str) {
        "image-editor"
    }

    fn can_handle(&self, context: &Context, action: Action) -> (r: bool) {
        (match context {
            Context::Empty => true,
            _ => false,
        }) && action == Action::EditImage
    }

    fn execute(&self, request: ToolRequest) -> (r: Result<ToolResult, ToolError>) {
        execute_empty_tool(self.can_handle(&request.context, request.action), "image editor")
    }
}

impl Tool for WatermarkTool {
    open spec fn tool_id(&self) -> Seq<char> {
        "watermark"@
    }

    open spec fn accepts(&self, context: Context, action: Action) -> bool {
        context is Empty && action == Action::WatermarkImage
    }

    open spec fn payload_of(&self, context: Context) -> Seq<char> {
        Seq::empty()
    }

    fn id(&self) -> (r: &'static str) {
        "watermark"
    }

    fn can_handle(&self, context: &Context, action: Action) -> (r: bool) {
        (match context {
            Context::Empty => true,
            _ => false,
        }) && action == Action::WatermarkImage
    }

    fn execute(&self, request: ToolRequest) -> (r: Result<ToolResult, ToolError>) {
        execute_empty_tool(self.can_handle(&request.context, request.action), "image watermark")
    }
}

impl Tool for CryptoTool {
    open spec fn tool_id(&self) -> Seq<char> {
        "crypto"@
    }

    open spec fn accepts(&self, context: Context, action: Action) -> bool {
        context is Empty && action == Action::EncryptText
    }

    open spec fn payload_of(&self, context: Context) -> Seq<char> {
        Seq::empty()
    }

    fn id(&self) -> (r: &'static str) {
        "crypto"
    }

    fn can_handle(&self, context: &Context, action: Action) -> (r: bool) {
        (match context {
            Context::Empty => true,
            _ => false,
        }) && action == Action::EncryptText
    }

    fn execute(&self, request: ToolRequest) -> (r: Result<ToolResult, ToolError>) {
        execute_empty_tool(self.can_handle(&request.context, request.action), "crypto")
    }
}

impl Tool for MetadataTool {
    open spec fn tool_id(&self) -> Seq<char> {
        "metadata"@
    }

    open spec fn accepts(&self, context: Context, action: Action) -> bool {
        context is Empty && action == Action::ReadMetadata
    }

    open spec fn payload_of(&self, context: Context) -> Seq<char> {
        Seq::empty()
    }

    fn id(&self) -> (r: &'static str) {
        "metadata"
    }

    fn can_handle(&self, context: &Context, action: Action) -> (r: bool) {
        (match context {
            Context::Empty => true,
            _ => false,
        }) && action == Action::ReadMetadata
    }

    fn execute(&self, request: ToolRequest) -> (r: Result<ToolResult, ToolError>) {
        execute_empty_tool(self.can_handle(&request.context, request.action), "metadata")
    }
}

impl Tool for ColorTool {
    open spec fn tool_id(&self) -> Seq<char> {
        "color"@
    }

    open spec fn accepts(&self, context: Context, action: Action) -> bool {
        context is Empty && action == Action::PickColor
    }

    open spec fn payload_of(&self, context: Context) -> Seq<char> {
        Seq::empty()
    }

    fn id(&self) -> (r: &'static str) {
        "color"
    }

    fn can_handle(&self, context: &Context, action: Action) -> (r: bool) {
        (match context {
            Context::Empty => true,
            _ => false,
        }) && action == Action::PickColor
    }

    fn execute(&self, request: ToolRequest) -> (r: Result<ToolResult, ToolError>) {
        execute_empty_tool(self.can_handle(&request.context, request.action), "color picker")
    }
}

} // verus!
