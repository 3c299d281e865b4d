//! Page entries: OCR, barcodes and QR codes, image compression, the image editor and
//! image watermarks, each reached by its keywords and their prefixes; text encryption,
//! media metadata and the colour picker, each reached by its own words.

use vstd::prelude::*;
use crate::runner::kmatch::{KMatch, Relevance, new_match, CATEGORY, CATEGORY_RELEVANCE};
use crate::text::{ascii_lower_seq, has_prefix, same_text, str_len, to_ascii_lowercase, trim, trim_spec};

verus! {

broadcast use vstd::string::group_string_axioms;

pub const OCR_MATCH_ID: &'static str = "ocr:open";

pub const BARCODE_MATCH_ID: &'static str = "barcode:open";

pub const IMAGE_COMPRESS_MATCH_ID: &'static str = "image-compress:open";

pub const IMAGE_EDITOR_MATCH_ID: &'static str = "image-editor:open";

pub const WATERMARK_MATCH_ID: &'static str = "watermark:open";

pub const CRYPTO_MATCH_ID: &'static str = "crypto:open";

pub const METADATA_MATCH_ID: &'static str = "metadata:open";

pub const COLOR_MATCH_ID: &'static str = "color:open";

/// A media tool page.
#[derive(Debug, Clone, Copy, PartialEq, Eq, Structural)]
pub enum MediaTool {
    Ocr,
    Barcode,
    ImageCompress,
    ImageEditor,
    Watermark,
    Crypto,
    Metadata,
    Color,
}

/// Whether `q` is a prefix of `word`.
pub open spec fn prefix_of(q: Seq<char>, word: Seq<char>) -> bool {
    q.is_prefix_of(word)
}

/// The media tool that the trimmed, lower-cased query `q` names, trying OCR, then
/// barcodes, then compression, then the editor, then watermarks; then the words of
/// the encryption, metadata and colour pages.
pub open spec fn media_tool_of(q: Seq<char>) -> Option<MediaTool> {
    let n = str_len(q);
    if q == "ocr"@ || (n >= 2 && prefix_of(q, "ocr"@)) {
        Some(MediaTool::Ocr)
    } else if q == "bar"@ || q == "qr"@ || (n >= 2 && (prefix_of(q, "barcode"@) || prefix_of(q, "qrcode"@))) {
        Some(MediaTool::Barcode)
    } else if q == "compress"@ || q == "squoosh"@ || (n >= 3 && (prefix_of(q, "image-compress"@)
        || prefix_of(q, "compress-image"@) || prefix_of(q, "imgcompress"@))) {
        Some(MediaTool::ImageCompress)
    } else if q == "editor"@ || (n >= 3 && (prefix_of(q, "image-editor"@) || prefix_of(q, "edit-image"@)
        || prefix_of(q, "imageedit"@) || prefix_of(q, "imgedit"@))) {
        Some(MediaTool::ImageEditor)
    } else if q == "watermark"@ || q == "wm"@ || (n >= 3 && (prefix_of(q, "watermark"@) || prefix_of(
        q,
        "image-watermark"@,
    ))) {
        Some(MediaTool::Watermark)
    } else if q == "crypto"@ || q == "encrypt"@ || q == "decrypt"@ || q == "cipher"@ || q == "aes"@ {
        Some(MediaTool::Crypto)
    } else if q == "exif"@ || q == "metadata"@ || q == "mediainfo"@ {
        Some(MediaTool::Metadata)
    } else if q == "color"@ || q == "colour"@ || q == "picker"@ || q == "eyedropper"@ {
        Some(MediaTool::Color)
    } else {
        None
    }
}

/// The media tool that a query names; the query is trimmed and lower-cased first.
pub open spec fn media_tool_for_query(query: Seq<char>) -> Option<MediaTool> {
    media_tool_of(ascii_lower_seq(trim_spec(query)))
}

/// The media tool that a query names, if any.
pub fn tool_for_query(query: &str) -> (r: Option<MediaTool>)
    ensures
        r == media_tool_for_query(query@),
{
    let lowered = to_ascii_lowercase(trim(query));
    let q = lowered.as_str();
    let n = q.len();
    if same_text(q, "ocr") || (n >= 2 && has_prefix("ocr", q)) {
        return Some(MediaTool::Ocr);
    }
    if same_text(q, "bar") || same_text(q, "qr") || (n >= 2 && (has_prefix("barcode", q) || has_prefix(
        "qrcode",
        q,
    ))) {
        return Some(MediaTool::Barcode);
    }
    if same_text(q, "compress") || same_text(q, "squoosh") || (n >= 3 && (has_prefix("image-compress", q)
        || has_prefix("compress-image", q) || has_prefix("imgcompress", q))) {
        return Some(MediaTool::ImageCompress);
    }
    if same_text(q, "editor") || (n >= 3 && (has_prefix("image-editor", q) || has_prefix("edit-image", q)
        || has_prefix("imageedit", q) || has_prefix("imgedit", q))) {
        return Some(MediaTool::ImageEditor);
    }
    if same_text(q, "watermark") || same_text(q, "wm") || (n >= 3 && (has_prefix("watermark", q)
        || has_prefix("image-watermark", q))) {
        return Some(MediaTool::Watermark);
    }
    if same_text(q, "crypto") || same_text(q, "encrypt") || same_text(q, "decrypt") || same_text(q, "cipher")
        || same_text(q, "aes") {
        return Some(MediaTool::Crypto);
    }
    if same_text(q, "exif") || same_text(q, "metadata") || same_text(q, "mediainfo") {
        return Some(MediaTool::Metadata);
    }
    if same_text(q, "color") || same_text(q, "colour") || same_text(q, "picker") || same_text(q, "eyedropper") {
        return Some(MediaTool::Color);
    }
    None
}

/// The tool id that the worker knows a media tool by.
pub open spec fn media_tool_id(t: MediaTool) -> Seq<char> {
    match t {
        MediaTool::Ocr => "ocr"@,
        MediaTool::Barcode => "barcode"@,
        MediaTool::ImageCompress => "image-compress"@,
        MediaTool::ImageEditor => "image-editor"@,
        MediaTool::Watermark => "watermark"@,
        MediaTool::Crypto => "crypto"@,
        MediaTool::Metadata => "metadata"@,
        MediaTool::Color => "color"@,
    }
}

/// The match id of a media tool's entry.
pub open spec fn media_match_id(t: MediaTool) -> Seq<char> {
    match t {
        MediaTool::Ocr => OCR_MATCH_ID@,
        MediaTool::Barcode => BARCODE_MATCH_ID@,
        MediaTool::ImageCompress => IMAGE_COMPRESS_MATCH_ID@,
        MediaTool::ImageEditor => IMAGE_EDITOR_MATCH_ID@,
        MediaTool::Watermark => WATERMARK_MATCH_ID@,
        MediaTool::Crypto => CRYPTO_MATCH_ID@,
        MediaTool::Metadata => METADATA_MATCH_ID@,
        MediaTool::Color => COLOR_MATCH_ID@,
    }
}

/// Title, icon and subtext of a media tool's entry.
pub open spec fn media_entry_text(t: MediaTool) -> (Seq<char>, Seq<char>, Seq<char>) {
    match t {
        MediaTool::Ocr => ("打开 OCR 文字识别"@, "insert-text"@, "粘贴或选择图片，使用本机 Tesseract 识别文字"@),
        MediaTool::Barcode => ("打开条码与二维码工具"@, "view-barcode"@, "识别或生成条形码与二维码"@),
        MediaTool::ImageCompress => ("打开图片压缩工具"@, "image-x-generic"@, "在 WebView 内压缩、对比并导出图片"@),
        MediaTool::ImageEditor => (
            "打开图片编辑器"@,
            "image-x-generic"@,
            "使用 TOAST UI Image Editor 编辑、复制和导出图片"@,
        ),
        MediaTool::Watermark => ("打开图片水印工具"@, "image-x-generic"@, "在 WebView 内添加平铺文字或图片水印"@),
        MediaTool::Crypto => (
            "打开文本加解密"@,
            "security-high"@,
            "在 WebView 内使用 AES、TripleDES、Rabbit 或 RC4 加密和解密文本"@,
        ),
        MediaTool::Metadata => ("打开媒体元数据查看器"@, "document-properties"@, "查看图片或视频文件的元数据"@),
        MediaTool::Color => ("打开颜色选择器"@, "color-picker"@, "固定色板、颜色格式转换与屏幕取色"@),
    }
}

/// Whether `m` is the entry of the media tool `t`.
pub open spec fn is_media_entry(m: KMatch, t: MediaTool) -> bool {
    &&& m.id@ == media_match_id(t)
    &&& m.text@ == media_entry_text(t).0
    &&& m.icon@ == media_entry_text(t).1
    &&& m.subtext@ == media_entry_text(t).2
    &&& m.category_relevance == CATEGORY_RELEVANCE
    &&& m.relevance == Relevance::Full
    &&& m.category@ == CATEGORY@
}

/// The entry of the media tool that the query names, if any.
pub fn match_for_query(query: &str) -> (r: Option<KMatch>)
    ensures
        match media_tool_for_query(query@) {
            Some(t) => r is Some && is_media_entry(r->0, t),
            None => r is None,
        },
{
    let tool = match tool_for_query(query) {
        Some(t) => t,
        None => return None,
    };
    let (id, title, icon, subtext): (&str, &str, &str, &str) = match tool {
        MediaTool::Ocr => (OCR_MATCH_ID, "打开 OCR 文字识别", "insert-text", "粘贴或选择图片，使用本机 Tesseract 识别文字"),
        MediaTool::Barcode => (BARCODE_MATCH_ID, "打开条码与二维码工具", "view-barcode", "识别或生成条形码与二维码"),
        MediaTool::ImageCompress => (
            IMAGE_COMPRESS_MATCH_ID,
            "打开图片压缩工具",
            "image-x-generic",
            "在 WebView 内压缩、对比并导出图片",
        ),
        MediaTool::ImageEditor => (
            IMAGE_EDITOR_MATCH_ID,
            "打开图片编辑器",
            "image-x-generic",
            "使用 TOAST UI Image Editor 编辑、复制和导出图片",
        ),
        MediaTool::Watermark => (
            WATERMARK_MATCH_ID,
            "打开图片水印工具",
            "image-x-generic",
            "在 WebView 内添加平铺文字或图片水印",
        ),
        MediaTool::Crypto => (
            CRYPTO_MATCH_ID,
            "打开文本加解密",
            "security-high",
            "在 WebView 内使用 AES、TripleDES、Rabbit 或 RC4 加密和解密文本",
        ),
        MediaTool::Metadata => (METADATA_MATCH_ID, "打开媒体元数据查看器", "document-properties", "查看图片或视频文件的元数据"),
        MediaTool::Color => (COLOR_MATCH_ID, "打开颜色选择器", "color-picker", "固定色板、颜色格式转换与屏幕取色"),
    };
    Some(new_match(String::from_str(id), String::from_str(title), icon, Relevance::Full, String::from_str(subtext)))
}

/// The media tool whose entry has the match id `id`, if any.
pub open spec fn media_tool_of_match_id(id: Seq<char>) -> Option<MediaTool> {
    if id == OCR_MATCH_ID@ {
        Some(MediaTool::Ocr)
    } else if id == BARCODE_MATCH_ID@ {
        Some(MediaTool::Barcode)
    } else if id == IMAGE_COMPRESS_MATCH_ID@ {
        Some(MediaTool::ImageCompress)
    } else if id == IMAGE_EDITOR_MATCH_ID@ {
        Some(MediaTool::ImageEditor)
    } else if id == WATERMARK_MATCH_ID@ {
        Some(MediaTool::Watermark)
    } else if id == CRYPTO_MATCH_ID@ {
        Some(MediaTool::Crypto)
    } else if id == METADATA_MATCH_ID@ {
        Some(MediaTool::Metadata)
    } else if id == COLOR_MATCH_ID@ {
        Some(MediaTool::Color)
    } else {
        None
    }
}

/// The media tool whose entry has the match id `match_id`, if any.
pub fn tool_of_match_id(match_id: &str) -> (r: Option<MediaTool>)
    ensures
        r == media_tool_of_match_id(match_id@),
{
    if same_text(match_id, OCR_MATCH_ID) {
        Some(MediaTool::Ocr)
    } else if same_text(match_id, BARCODE_MATCH_ID) {
        Some(MediaTool::Barcode)
    } else if same_text(match_id, IMAGE_COMPRESS_MATCH_ID) {
        Some(MediaTool::ImageCompress)
    } else if same_text(match_id, IMAGE_EDITOR_MATCH_ID) {
        Some(MediaTool::ImageEditor)
    } else if same_text(match_id, WATERMARK_MATCH_ID) {
        Some(MediaTool::Watermark)
    } else if same_text(match_id, CRYPTO_MATCH_ID) {
        Some(MediaTool::Crypto)
    } else if same_text(match_id, METADATA_MATCH_ID) {
        Some(MediaTool::Metadata)
    } else if same_text(match_id, COLOR_MATCH_ID) {
        Some(MediaTool::Color)
    } else {
        None
    }
}

/// Whether the match id belongs to a media tool entry.
pub fn handles_match_id(match_id: &str) -> (r: bool)
    ensures
        r == media_tool_of_match_id(match_id@) is Some,
{
    tool_of_match_id(match_id).is_some()
}

/// The worker tool id that a media entry opens; `unknown media match id: <id>` for
/// any other id.
pub fn tool_for_match_id(match_id: &str) -> (r: Result<&'static str, String>)
    ensures
        match media_tool_of_match_id(match_id@) {
            Some(t) => r matches Ok(id) && id@ == media_tool_id(t),
            None => r matches Err(e) && e@ == "unknown media match id: "@ + match_id@,
        },
{
    match tool_of_match_id(match_id) {
        Some(MediaTool::Ocr) => Ok("ocr"),
        Some(MediaTool::Barcode) => Ok("barcode"),
        Some(MediaTool::ImageCompress) => Ok("image-compress"),
        Some(MediaTool::ImageEditor) => Ok("image-editor"),
        Some(MediaTool::Watermark) => Ok("watermark"),
        Some(MediaTool::Crypto) => Ok("crypto"),
        Some(MediaTool::Metadata) => Ok("metadata"),
        Some(MediaTool::Color) => Ok("color"),
        None => {
            let mut e = String::from_str("unknown media match id: ");
            e.append(match_id);
            Err(e)
        },
    }
}

} // verus!
