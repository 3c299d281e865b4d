use devtools::worker::registry::{tool_event, ToolEvent, ToolRegistry};

#[test]
fn registry_executes_json_tool() {
    let result = ToolRegistry::standard().execute("json", "{\"a\":1}").expect("JSON 请求应执行成功");
    assert_eq!(result.payload, "{\"a\":1}");
}

#[test]
fn registry_rejects_unknown_tool() {
    assert!(ToolRegistry::standard().execute("unknown", "").is_err());
}

#[test]
fn registry_executes_convert_tool() {
    let result = ToolRegistry::standard().execute("convert", "a=1&b=2").expect("转换请求应执行成功");
    assert_eq!(result.payload, "a=1&b=2");
}

#[test]
fn registry_executes_media_tools_without_payload() {
    for tool in ["ocr", "watermark", "image-editor", "barcode", "image-compress"] {
        assert_eq!(ToolRegistry::standard().execute(tool, "ignored").expect("请求应执行成功").payload, "");
    }
}

#[test]
fn registry_reports_unknown_and_invalid_requests() {
    let registry = ToolRegistry::standard();
    assert_eq!(registry.execute("cipher", "").err().unwrap().message(), "unknown tool: cipher");
    assert!(registry.execute("json", "{oops").err().unwrap().message().starts_with("invalid JSON: "));
}

#[test]
fn maps_registered_tools_to_events() {
    let registry = ToolRegistry::standard();
    assert_eq!(
        tool_event(&registry, "json", "{\"ok\":true}"),
        Ok(ToolEvent::OpenJson("{\"ok\":true}".to_owned()))
    );
    assert_eq!(tool_event(&registry, "convert", "a=1"), Ok(ToolEvent::OpenConvert("a=1".to_owned())));
    assert_eq!(tool_event(&registry, "ocr", ""), Ok(ToolEvent::OpenOcr));
    assert_eq!(tool_event(&registry, "barcode", ""), Ok(ToolEvent::OpenBarcode));
    assert_eq!(tool_event(&registry, "image-compress", ""), Ok(ToolEvent::OpenImageCompress));
    assert_eq!(tool_event(&registry, "image-editor", ""), Ok(ToolEvent::OpenImageEditor));
    assert_eq!(tool_event(&registry, "watermark", ""), Ok(ToolEvent::OpenWatermark));
    assert_eq!(tool_event(&registry, "metadata", "ignored"), Ok(ToolEvent::OpenMetadata));
    assert_eq!(tool_event(&registry, "exif", ""), Err("unknown tool: exif".to_owned()));
}

#[test]
fn maps_every_registered_tool_to_an_application_event() {
    let registry = ToolRegistry::standard();
    assert!(matches!(
        tool_event(&registry, "json", "{\"ok\":true}"),
        Ok(ToolEvent::OpenJson(_))
    ));
    assert!(matches!(
        tool_event(&registry, "convert", "a=1"),
        Ok(ToolEvent::OpenConvert(_))
    ));
    assert!(matches!(
        tool_event(&registry, "ocr", ""),
        Ok(ToolEvent::OpenOcr)
    ));
    assert!(matches!(
        tool_event(&registry, "barcode", ""),
        Ok(ToolEvent::OpenBarcode)
    ));
    assert!(matches!(
        tool_event(&registry, "image-compress", ""),
        Ok(ToolEvent::OpenImageCompress)
    ));
    assert!(matches!(
        tool_event(&registry, "image-editor", ""),
        Ok(ToolEvent::OpenImageEditor)
    ));
    assert!(matches!(
        tool_event(&registry, "watermark", ""),
        Ok(ToolEvent::OpenWatermark)
    ));
    assert!(matches!(
        tool_event(&registry, "crypto", ""),
        Ok(ToolEvent::OpenCrypto)
    ));
    assert!(matches!(
        tool_event(&registry, "metadata", ""),
        Ok(ToolEvent::OpenMetadata)
    ));
    assert!(matches!(
        tool_event(&registry, "color", ""),
        Ok(ToolEvent::OpenColor)
    ));
}
