use devtools::model::{
    Action, Context, ContextError, JsonKind, LanguageMode, Settings, ThemeMode, Tool, ToolError,
    ToolRequest, MAX_JSON_BYTES,
};
use devtools::tools::{
    execute_empty_tool, BarcodeTool, ColorTool, ConvertTool, CryptoTool, ImageCompressionTool,
    ImageEditorTool, JsonTool, MetadataTool, OcrTool, WatermarkTool,
};

#[test]
fn json_context_keeps_raw_text_and_parsed_value() {
    let context = Context::from_json_text("{\n  \"a\": 1\n}").expect("JSON 应可解析");
    assert_eq!(context.raw_text(), "{\n  \"a\": 1\n}");
    assert!(matches!(context, Context::Json { kind: JsonKind::Object, .. }));
    let Context::Json { value, .. } = context else {
        panic!("应构造 JSON 上下文");
    };
    assert_eq!(value["a"], 1);
}

#[test]
fn text_context_keeps_raw_text() {
    let context = Context::from_text("a=1&b=2").expect("普通文本应可构造");
    assert!(matches!(&context, Context::Text { raw } if raw == "a=1&b=2"));
    assert_eq!(context.raw_text(), "a=1&b=2");
}

#[test]
fn empty_context_has_empty_raw_text() {
    assert_eq!(Context::Empty.raw_text(), "");
}

#[test]
fn rejects_invalid_json() {
    assert!(matches!(
        Context::from_json_text("{invalid}"),
        Err(ContextError::InvalidJson(_))
    ));
}

#[test]
fn rejects_json_over_size_limit() {
    let raw = format!("\"{}\"", "x".repeat(MAX_JSON_BYTES));
    assert!(matches!(
        Context::from_json_text(&raw),
        Err(ContextError::TooLarge { .. })
    ));
}

#[test]
fn context_errors_display_their_reason() {
    let raw = format!("\"{}\"", "x".repeat(MAX_JSON_BYTES));
    let error = Context::from_json_text(&raw).err().unwrap();
    assert_eq!(error.message(), "JSON is too large: 2097154 bytes (maximum 2097152)");
    let error = Context::from_json_text("[1,").err().unwrap();
    assert!(error.message().starts_with("invalid JSON: "));
    assert!(Context::from_text(&raw).is_err());
}

#[test]
fn settings_defaults() {
    let settings = Settings::default();
    assert!(settings.show_tray);
    assert!(!settings.autostart);
    assert!(!settings.global_shortcut_enabled);
    assert_eq!(settings.global_shortcut, "Ctrl+Alt+Space");
    assert!(!settings.quick_input_enabled);
    assert_eq!(settings.quick_input_shortcut, "Ctrl+Alt+KeyI");
    assert_eq!(settings.quick_input_width, 560);
    assert_eq!(settings.quick_input_height, 56);
    assert_eq!(settings.theme, ThemeMode::System);
    assert_eq!(settings.language, LanguageMode::System);
}

#[test]
fn mod_detects_supported_system_locales() {
    assert_eq!(LanguageMode::from_locale("zh_CN.UTF-8"), LanguageMode::SimplifiedChinese);
    assert_eq!(LanguageMode::from_locale("zh_Hant_HK.UTF-8"), LanguageMode::TraditionalChinese);
    assert_eq!(LanguageMode::from_locale("en_GB.UTF-8"), LanguageMode::English);
}

#[test]
fn locales_of_other_forms() {
    assert_eq!(LanguageMode::from_locale("zh-TW"), LanguageMode::TraditionalChinese);
    assert_eq!(LanguageMode::from_locale("ZH_hk"), LanguageMode::TraditionalChinese);
    assert_eq!(LanguageMode::from_locale("zh"), LanguageMode::SimplifiedChinese);
    assert_eq!(LanguageMode::from_locale("C.UTF-8"), LanguageMode::English);
    assert_eq!(LanguageMode::from_locale(""), LanguageMode::English);
}

#[test]
fn prepares_text_payload_without_changing_it() {
    let result = ConvertTool
        .execute(ToolRequest {
            context: Context::from_text("a=1&b=2").expect("文本应有效"),
            action: Action::Convert,
        })
        .expect("转换工具应接受普通文本");
    assert_eq!(result.payload, "a=1&b=2");
}

#[test]
fn prepares_json_payload_without_changing_formatting() {
    let raw = "{\n  \"name\": \"loveyu\"\n}";
    let result = JsonTool
        .execute(ToolRequest {
            context: Context::from_json_text(raw).expect("JSON 应可解析"),
            action: Action::Inspect,
        })
        .expect("JSON 工具应接受检查请求");
    assert_eq!(result.payload, raw);
}

#[test]
fn ocr_accepts_empty_recognition_request() {
    let result = OcrTool
        .execute(ToolRequest { context: Context::Empty, action: Action::RecognizeText })
        .expect("OCR 工具应接受空上下文");
    assert!(result.payload.is_empty());
}

#[test]
fn barcode_rejects_wrong_action() {
    let result = BarcodeTool.execute(ToolRequest { context: Context::Empty, action: Action::Inspect });
    assert!(result.is_err());
}

#[test]
fn image_compression_accepts_empty_request() {
    let result = ImageCompressionTool
        .execute(ToolRequest { context: Context::Empty, action: Action::CompressImage })
        .expect("图片压缩工具应接受空上下文");
    assert!(result.payload.is_empty());
}

#[test]
fn image_editor_accepts_empty_request() {
    let result = ImageEditorTool
        .execute(ToolRequest { context: Context::Empty, action: Action::EditImage })
        .expect("图片编辑工具应接受空上下文");
    assert!(result.payload.is_empty());
}

#[test]
fn watermark_accepts_empty_request() {
    let result = WatermarkTool
        .execute(ToolRequest { context: Context::Empty, action: Action::WatermarkImage })
        .expect("图片水印工具应接受空上下文");
    assert!(result.payload.is_empty());
}

#[test]
fn tools_refuse_other_requests_with_their_message() {
    let error = JsonTool
        .execute(ToolRequest { context: Context::Empty, action: Action::Inspect })
        .err()
        .unwrap();
    assert_eq!(error.message(), "JSON tool cannot handle this request");
    let error = WatermarkTool
        .execute(ToolRequest { context: Context::Empty, action: Action::EditImage })
        .err()
        .unwrap();
    assert_eq!(error.message(), "image watermark tool cannot handle this request");
    assert_eq!(execute_empty_tool(false, "OCR").err().unwrap().message(), "OCR tool cannot handle this request");
    assert_eq!(ToolError::new("x".to_owned()).message(), "x");
    assert_eq!(OcrTool.id(), "ocr");
}

#[test]
fn page_tools_open_with_their_own_action_only() {
    for (result, label) in [
        (CryptoTool.execute(ToolRequest { context: Context::Empty, action: Action::EncryptText }), ""),
        (MetadataTool.execute(ToolRequest { context: Context::Empty, action: Action::ReadMetadata }), ""),
        (ColorTool.execute(ToolRequest { context: Context::Empty, action: Action::PickColor }), ""),
    ] {
        assert_eq!(result.unwrap().payload, label);
    }
    assert_eq!(
        ColorTool.execute(ToolRequest { context: Context::Empty, action: Action::EncryptText }).err().unwrap().message(),
        "color picker tool cannot handle this request"
    );
    assert_eq!(CryptoTool.id(), "crypto");
    assert_eq!(MetadataTool.id(), "metadata");
    assert_eq!(ColorTool.id(), "color");
}
