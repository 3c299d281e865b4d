use devtools::worker::metadata::{
    metadata_document, plan_metadata_job, MetadataBackend, MetadataDocument, MetadataField, MetadataRead,
};

#[test]
fn plans_metadata_jobs_by_source_and_backend() {
    assert_eq!(plan_metadata_job(None, MetadataBackend::Builtin, false), Ok(MetadataRead::BuiltinPath));
    assert_eq!(plan_metadata_job(None, MetadataBackend::External, true), Ok(MetadataRead::ExternalPath));
    assert_eq!(
        plan_metadata_job(Some("image/jpeg"), MetadataBackend::Builtin, false),
        Ok(MetadataRead::BuiltinImage { file_name: "clipboard.jpg".to_owned() })
    );
    assert_eq!(
        plan_metadata_job(Some("image/png"), MetadataBackend::External, true),
        Ok(MetadataRead::ExternalImage { suffix: ".png".to_owned(), file_name: "clipboard.png".to_owned() })
    );
}

#[test]
fn metadata_job_errors_come_in_order() {
    assert_eq!(
        plan_metadata_job(Some("video/mp4"), MetadataBackend::External, false),
        Err("ExifTool is not available; choose the built-in backend".to_owned())
    );
    assert_eq!(
        plan_metadata_job(None, MetadataBackend::External, false),
        Err("ExifTool is not available; choose the built-in backend".to_owned())
    );
    assert_eq!(
        plan_metadata_job(Some("video/mp4"), MetadataBackend::Builtin, false),
        Err("unsupported clipboard image type: video/mp4".to_owned())
    );
}

#[test]
fn metadata_documents_need_fields() {
    assert_eq!(
        metadata_document("a.jpg".to_owned(), MetadataBackend::Builtin, Vec::new()),
        Err("no readable metadata was found in this file".to_owned())
    );
    let fields = vec![MetadataField { group: "File".to_owned(), name: "Name".to_owned(), value: "a".to_owned() }];
    assert_eq!(
        metadata_document("a.jpg".to_owned(), MetadataBackend::External, fields.clone()),
        Ok(MetadataDocument { file_name: "a.jpg".to_owned(), backend: MetadataBackend::External, fields })
    );
}
