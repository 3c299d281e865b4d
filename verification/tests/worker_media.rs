use devtools::worker::media::{
    capabilities_from, check_media_request, decode_image, parse_zbar_output, tesseract_languages,
    validate_languages, version_line, DetectedCode, MAX_ENCODED_IMAGE_BYTES,
};
use devtools::worker::metadata::{
    capabilities_from_version_output, check_image_request, check_path_request, extension_for_mime,
};

#[test]
fn parses_and_deduplicates_zbar_output() {
    let result = parse_zbar_output(
        b"QR-Code:https://example.com:a\nCODE-128:1234\nQR-Code:https://example.com:a\n",
    )
    .expect("ZBar 输出应可解析");

    assert_eq!(
        result.codes,
        vec![
            DetectedCode { code_type: "QR-Code".to_owned(), data: "https://example.com:a".to_owned() },
            DetectedCode { code_type: "CODE-128".to_owned(), data: "1234".to_owned() }
        ]
    );
}

#[test]
fn zbar_lines_without_parts_are_skipped() {
    let result = parse_zbar_output(b" EAN-13 :4006381333931\r\nno colon\n:data\nQR-Code:\n").unwrap();
    assert_eq!(
        result.codes,
        vec![DetectedCode { code_type: "EAN-13".to_owned(), data: "4006381333931".to_owned() }]
    );
    assert!(parse_zbar_output(&[0xff, 0xfe]).is_err());
}

#[test]
fn rejects_unavailable_language_combinations() {
    let available = vec!["chi_sim".to_owned(), "eng".to_owned()];
    assert!(validate_languages("eng+chi_sim", &available).is_ok());
    assert!(validate_languages("eng+deu", &available).is_err());
    assert!(validate_languages("eng+", &available).is_err());
    assert_eq!(
        validate_languages("", &available),
        Err("unsupported Tesseract language selection: ".to_owned())
    );
}

#[test]
fn rejects_oversized_or_empty_images() {
    assert!(decode_image("").is_err());
    assert_eq!(decode_image("AQID"), Ok(vec![1, 2, 3]));
    assert!(decode_image("not base64!").unwrap_err().starts_with("invalid base64 image: "));
}

#[test]
fn media_requests_are_checked_in_order() {
    assert_eq!(
        check_media_request("  ", "", "image/png"),
        Err("media processing request id is empty".to_owned())
    );
    assert_eq!(
        check_media_request("m-1", "", "image/svg+xml"),
        Err("unsupported image type: image/svg+xml".to_owned())
    );
    assert!(check_media_request("m-1", &"A".repeat(MAX_ENCODED_IMAGE_BYTES + 1), "image/gif").is_err());
    assert!(check_media_request("m-1", "AQID", "image/webp").is_ok());
}

#[test]
fn helper_output_is_read() {
    assert_eq!(version_line("tesseract 5.3.0\n leptonica-1.82.0\n"), Some("tesseract 5.3.0".to_owned()));
    assert_eq!(version_line("  \nsecond"), None);
    assert_eq!(version_line(""), None);
    assert_eq!(
        tesseract_languages("List of available languages in \"/usr/share\" (3):\neng\n chi_sim \n\nosd\n"),
        vec!["chi_sim".to_owned(), "eng".to_owned(), "osd".to_owned()]
    );
    let caps = capabilities_from(Some("tesseract 5".to_owned()), Vec::new(), None);
    assert!(!caps.ocr.available);
    assert!(!caps.barcode.available);
}

#[test]
fn reports_builtin_and_external_capabilities() {
    for output in [None, Some(""), Some("12.76\n")] {
        let capabilities = capabilities_from_version_output(output);
        assert_eq!(capabilities.builtin_version, "revelo 0.5.5");
        assert_eq!(capabilities.external_available, capabilities.external_version.is_some());
    }
    assert_eq!(
        capabilities_from_version_output(Some(" 12.76\n")).external_version.as_deref(),
        Some("12.76")
    );
}

#[test]
fn validates_clipboard_image_mime_types() {
    assert_eq!(extension_for_mime("image/jpeg"), Ok("jpg"));
    assert!(extension_for_mime("video/mp4").is_err());
}

#[test]
fn metadata_requests_are_checked() {
    assert_eq!(check_path_request("", true), Err("metadata request id is empty".to_owned()));
    assert_eq!(
        check_path_request("m", false),
        Err("selected metadata path is not a regular file".to_owned())
    );
    assert!(check_path_request("m", true).is_ok());
    assert_eq!(check_image_request("m", "AQID", "image/png"), Ok(vec![1, 2, 3]));
    assert_eq!(
        check_image_request("m", "", "image/png"),
        Err("image must contain 1 to 10485760 bytes".to_owned())
    );
    assert_eq!(
        check_image_request("m", "AQID", "image/x-icon"),
        Err("unsupported clipboard image type: image/x-icon".to_owned())
    );
}
