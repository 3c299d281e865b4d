use devtools::worker::media::{
    check_operation_available, BarcodeCapability, MediaCapabilities, MediaOperation, OcrCapability,
};
use devtools::worker::ocr::{ocr_full_text, ocr_parameters, tesseract_rows, word_box, LineKey, WordBox};

const TSV: &[u8] = b"level\tpage_num\tblock_num\tpar_num\tline_num\tword_num\tleft\ttop\twidth\theight\tconf\ttext\n\
5\t1\t1\t1\t1\t1\t10\t20\t30\t12\t95.5\tHello\n\
5\t1\t1\t1\t1\t2\t45\t20\t35\t12\t88.5\tworld\n\
5\t1\t1\t1\t2\t1\t10\t40\t20\t12\t42.0\tnext\n";

fn key(page: u32, block: u32, paragraph: u32, line: u32) -> LineKey {
    LineKey { page, block, paragraph, line }
}

#[test]
fn reads_tesseract_word_rows() {
    let rows = tesseract_rows(TSV).unwrap();
    assert_eq!(rows.len(), 3);
    assert_eq!(rows[0].text, "Hello");
    assert_eq!(rows[0].columns.len(), 12);
    assert_eq!(rows[0].columns[10], "95.5");
    assert_eq!(rows[2].text, "next");
    assert_eq!(
        word_box(&rows[1]),
        Ok(WordBox { left: 45, top: 20, width: 35, height: 12, line_key: key(1, 1, 1, 1) })
    );
    assert_eq!(word_box(&rows[2]).unwrap().line_key, key(1, 1, 1, 2));
}

#[test]
fn rebuilds_lines_from_the_kept_words() {
    let rows = tesseract_rows(TSV).unwrap();
    let kept: Vec<(String, LineKey)> = rows[..2]
        .iter()
        .map(|row| (row.text.clone(), word_box(row).unwrap().line_key))
        .collect();
    assert_eq!(ocr_full_text(&kept), "Hello world");
    let all: Vec<(String, LineKey)> =
        rows.iter().map(|row| (row.text.clone(), word_box(row).unwrap().line_key)).collect();
    assert_eq!(ocr_full_text(&all), "Hello world\nnext");
    assert_eq!(ocr_full_text(&Vec::new()), "");
    let back_again = vec![
        ("a".to_owned(), key(1, 1, 1, 1)),
        ("b".to_owned(), key(1, 1, 1, 2)),
        ("c".to_owned(), key(1, 1, 1, 1)),
    ];
    assert_eq!(ocr_full_text(&back_again), "a\nb\nc");
}

#[test]
fn skips_rows_that_are_not_words() {
    let tsv = b"header\n4\t1\t1\t1\t1\t0\t0\t0\t9\t9\t-1\t\n5\t1\t1\t1\t1\t1\t0\t0\t9\t9\t90\t   \n\
5\t1\t1\t1\t1\t1\t0\t0\t9\t9\t90\n5\t1\t1\t1\t1\t1\t0\t0\t9\t9\t90\t two\twords \r\n";
    let rows = tesseract_rows(tsv).unwrap();
    assert_eq!(rows.len(), 1);
    assert_eq!(rows[0].text, "two\twords");
    assert!(tesseract_rows(b"").unwrap().is_empty());
    assert!(tesseract_rows(b"h\n\xff\n").unwrap_err().starts_with("Tesseract returned invalid UTF-8: "));
}

#[test]
fn word_boxes_report_the_first_bad_column() {
    let rows = tesseract_rows(b"h\n5\tp\t1\t1\t1\t1\tx\t20\t30\t12\t95\tw\n").unwrap();
    assert!(word_box(&rows[0]).unwrap_err().starts_with("invalid Tesseract left: "));
    let rows = tesseract_rows(b"h\n5\tp\t1\t1\t1\t1\t+7\t20\t30\t12\t95\tw\n").unwrap();
    assert!(word_box(&rows[0]).unwrap_err().starts_with("invalid Tesseract page: "));
    let rows = tesseract_rows(b"h\n5\t1\t1\t1\t4294967296\t1\t+7\t20\t30\t12\t95\tw\n").unwrap();
    assert!(word_box(&rows[0]).unwrap_err().starts_with("invalid Tesseract line: "));
}

#[test]
fn ocr_parameters_default_and_check() {
    let available = vec!["chi_sim".to_owned(), "eng".to_owned()];
    assert_eq!(ocr_parameters(None, None, &available), Ok(("eng".to_owned(), 3)));
    assert_eq!(ocr_parameters(Some("eng+chi_sim"), Some(11), &available), Ok(("eng+chi_sim".to_owned(), 11)));
    assert_eq!(
        ocr_parameters(Some("deu"), Some(5), &available),
        Err("unsupported Tesseract language selection: deu".to_owned())
    );
    assert_eq!(
        ocr_parameters(None, Some(5), &available),
        Err("unsupported Tesseract page segmentation mode: 5".to_owned())
    );
    assert!(ocr_parameters(None, None, &[]).is_err());
}

#[test]
fn media_operations_need_their_helper() {
    let capabilities = |ocr: bool, barcode: bool| MediaCapabilities {
        ocr: OcrCapability { available: ocr, version: None, languages: Vec::new() },
        barcode: BarcodeCapability { available: barcode, version: None },
    };
    assert_eq!(check_operation_available(MediaOperation::Ocr, &capabilities(true, false)), Ok(()));
    assert_eq!(
        check_operation_available(MediaOperation::Ocr, &capabilities(false, true)),
        Err("Tesseract OCR is not available".to_owned())
    );
    assert_eq!(
        check_operation_available(MediaOperation::Barcode, &capabilities(true, false)),
        Err("ZBar barcode reader is not available".to_owned())
    );
    assert_eq!(check_operation_available(MediaOperation::Barcode, &capabilities(false, true)), Ok(()));
}
