use devtools::model::MAX_TEXT_BYTES;
use devtools::runner::data_convert;
use devtools::runner::media::{
    handles_match_id, match_for_query, tool_for_match_id, tool_for_query, MediaTool, BARCODE_MATCH_ID,
    COLOR_MATCH_ID, CRYPTO_MATCH_ID, IMAGE_COMPRESS_MATCH_ID, IMAGE_EDITOR_MATCH_ID, METADATA_MATCH_ID,
    OCR_MATCH_ID, WATERMARK_MATCH_ID,
};

fn id_of(query: &str) -> Option<String> {
    match_for_query(query).map(|item| item.id)
}

#[test]
fn matches_ocr_prefix() {
    assert_eq!(id_of("oc"), Some(OCR_MATCH_ID.to_owned()));
    assert_eq!(id_of("OCR"), Some(OCR_MATCH_ID.to_owned()));
    assert!(match_for_query("o").is_none());
}

#[test]
fn matches_barcode_and_qr_aliases() {
    for query in ["bar", "barc", "barcode", "qr", "qrc", "qrcode"] {
        assert_eq!(id_of(query), Some(BARCODE_MATCH_ID.to_owned()));
    }
    assert!(match_for_query("barcode-reader").is_none());
}

#[test]
fn recognizes_only_media_match_ids() {
    assert!(handles_match_id(OCR_MATCH_ID));
    assert!(handles_match_id(BARCODE_MATCH_ID));
    assert!(handles_match_id(IMAGE_COMPRESS_MATCH_ID));
    assert!(handles_match_id(IMAGE_EDITOR_MATCH_ID));
    assert!(handles_match_id(WATERMARK_MATCH_ID));
    assert!(!handles_match_id("json:open"));
}

#[test]
fn matches_image_compression_aliases() {
    for query in ["compress", "squoosh", "ima", "image-compress", "com", "compress-image", "img", "imgcompress"] {
        assert_eq!(id_of(query), Some(IMAGE_COMPRESS_MATCH_ID.to_owned()));
    }
    assert!(match_for_query("im").is_none());
    assert!(match_for_query("compressor").is_none());
}

#[test]
fn matches_image_editor_aliases() {
    for query in ["editor", "image-editor", "edi", "edit-image", "imageedit", "imge", "imgedit"] {
        assert_eq!(id_of(query), Some(IMAGE_EDITOR_MATCH_ID.to_owned()));
    }
    assert!(match_for_query("ed").is_none());
    assert!(match_for_query("photo-editor").is_none());
}

#[test]
fn matches_image_watermark_aliases() {
    for query in ["wm", "wat", "watermark", "image-watermark"] {
        assert_eq!(id_of(query), Some(WATERMARK_MATCH_ID.to_owned()));
    }
    assert!(match_for_query("wa").is_none());
    assert!(match_for_query("watermarked").is_none());
}

#[test]
fn media_entries_carry_their_texts_and_tools() {
    let item = match_for_query("  QR ").unwrap();
    assert_eq!(item.text, "打开条码与二维码工具");
    assert_eq!(item.icon, "view-barcode");
    assert_eq!(tool_for_query("imgedit"), Some(MediaTool::ImageEditor));
    assert_eq!(tool_for_match_id(WATERMARK_MATCH_ID), Ok("watermark"));
    assert_eq!(
        tool_for_match_id("ocr:close"),
        Err("unknown media match id: ocr:close".to_owned())
    );
}

#[test]
fn matches_convert_keyword_and_short_alias() {
    assert!(data_convert::matches_query("co"));
    assert!(data_convert::matches_query("CONVERT"));
    assert!(data_convert::matches_query("cv"));
    assert!(!data_convert::matches_query("c"));
    assert!(!data_convert::matches_query("converter"));
}

#[test]
fn requires_non_empty_bounded_clipboard_text() {
    let item = data_convert::match_for_clipboard("convert", "key=value").expect("文本应命中转换工具");

    assert_eq!(item.id, data_convert::OPEN_MATCH_ID);
    assert_eq!(item.text, "打开数据转换");
    assert!(data_convert::match_for_clipboard("convert", "  \n").is_none());
    assert!(data_convert::match_for_clipboard("convert", &"x".repeat(MAX_TEXT_BYTES + 1)).is_none());
}

#[test]
fn crypto_words_open_the_encryption_page() {
    for query in ["crypto", "encrypt", "decrypt", "cipher", "aes", " AES "] {
        assert_eq!(id_of(query), Some(CRYPTO_MATCH_ID.to_owned()));
        assert_eq!(tool_for_query(query), Some(MediaTool::Crypto));
    }
    assert!(match_for_query("cryp").is_none());
    assert!(match_for_query("encryption").is_none());
    assert_eq!(tool_for_match_id(CRYPTO_MATCH_ID), Ok("crypto"));
    assert!(handles_match_id(CRYPTO_MATCH_ID));
}

#[test]
fn metadata_words_open_the_metadata_viewer() {
    for query in ["exif", "metadata", "mediainfo", "EXIF"] {
        assert_eq!(id_of(query), Some(METADATA_MATCH_ID.to_owned()));
    }
    assert!(match_for_query("meta").is_none());
    let item = match_for_query("exif").unwrap();
    assert_eq!(item.text, "打开媒体元数据查看器");
    assert_eq!(tool_for_match_id(METADATA_MATCH_ID), Ok("metadata"));
    assert!(handles_match_id(METADATA_MATCH_ID));
}

#[test]
fn colour_words_open_the_colour_picker() {
    for query in ["color", "colour", "picker", "eyedropper", "Color"] {
        assert_eq!(id_of(query), Some(COLOR_MATCH_ID.to_owned()));
    }
    assert!(match_for_query("col").is_none());
    assert_eq!(id_of("com"), Some(IMAGE_COMPRESS_MATCH_ID.to_owned()));
    assert_eq!(tool_for_match_id(COLOR_MATCH_ID), Ok("color"));
    assert!(handles_match_id(COLOR_MATCH_ID));
}
