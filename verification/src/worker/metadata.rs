//! The rules of the worker's metadata reader: which backends it has, which clipboard
//! images it takes, how its requests are checked, how a job is read, and when a
//! document is made of what was read.

use vstd::prelude::*;
use crate::text::{same_text, str_len, trim, trim_spec};
use crate::worker::media::{base64_decoded, MAX_ENCODED_IMAGE_BYTES, MAX_IMAGE_BYTES};

verus! {

broadcast use vstd::string::group_string_axioms;

/// The built-in metadata library and its version.
pub const BUILTIN_VERSION: &'static str = "revelo 0.5.5";

/// Which reader a metadata request uses.
#[derive(Debug, Clone, Copy, PartialEq, Eq, Structural)]
pub enum MetadataBackend {
    Builtin,
    External,
}

/// What the metadata readers offer.
#[derive(Debug, Clone)]
pub struct MetadataCapabilities {
    pub builtin_version: &'static str,
    pub external_available: bool,
    pub external_version: Option<String>,
}

/// The capabilities for what `exiftool -ver` printed (`None` where it could not be
/// run or failed): the external reader is there when it printed a version, which is
/// kept trimmed.
pub fn capabilities_from_version_output(output: Option<&str>) -> (r: MetadataCapabilities)
    ensures
        r.builtin_version@ == BUILTIN_VERSION@,
        r.external_available == r.external_version is Some,
        match output {
            Some(o) => if trim_spec(o@).len() > 0 {
                r.external_version matches Some(v) && v@ == trim_spec(o@)
            } else {
                r.external_version is None
            },
            None => r.external_version is None,
        },
{
    let external_version = match output {
        Some(o) => {
            let t = trim(o);
            if t.is_empty() {
                None
            } else {
                Some(String::from_str(t))
            }
        },
        None => None,
    };
    let external_available = external_version.is_some();
    MetadataCapabilities { builtin_version: BUILTIN_VERSION, external_available, external_version }
}

/// One metadata field: its group, its name and its value as text.
#[derive(Debug, Clone, PartialEq, Eq)]
pub struct MetadataField {
    pub group: String,
    pub name: String,
    pub value: String,
}

/// The metadata of one file.
#[derive(Debug, Clone, PartialEq, Eq)]
pub struct MetadataDocument {
    pub file_name: String,
    pub backend: MetadataBackend,
    pub fields: Vec<MetadataField>,
}

/// What the metadata reader reports to the web view for one request.
#[derive(Debug, Clone)]
pub struct MetadataProcessingResult {
    pub request_id: String,
    pub result: Option<MetadataDocument>,
    pub error: Option<String>,
}

impl MetadataProcessingResult {
    /// The request failed with `error`.
    pub fn error(request_id: String, error: String) -> (r: MetadataProcessingResult)
        ensures
            r.request_id@ == request_id@,
            r.result is None,
            r.error matches Some(e) && e@ == error@,
    {
        MetadataProcessingResult { request_id, result: None, error: Some(error) }
    }

    /// The request read `result`.
    pub fn success(request_id: String, result: MetadataDocument) -> (r: MetadataProcessingResult)
        ensures
            r.request_id@ == request_id@,
            r.result == Some(result),
            r.error is None,
    {
        MetadataProcessingResult { request_id, result: Some(result), error: None }
    }
}

/// The file extension of a clipboard image type, if the type is taken.
pub open spec fn mime_extension(m: Seq<char>) -> Option<Seq<char>> {
    if m == "image/png"@ {
        Some("png"@)
    } else if m == "image/jpeg"@ {
        Some("jpg"@)
    } else if m == "image/bmp"@ {
        Some("bmp"@)
    } else if m == "image/tiff"@ {
        Some("tiff"@)
    } else if m == "image/webp"@ {
        Some("webp"@)
    } else if m == "image/gif"@ {
        Some("gif"@)
    } else {
        None
    }
}

/// The file extension for a clipboard image type; `unsupported clipboard image type:
/// <type>` for any other type.
pub fn extension_for_mime(mime_type: &str) -> (r: Result<&'static str, String>)
    ensures
        match mime_extension(mime_type@) {
            Some(x) => r matches Ok(e) && e@ == x,
            None => r matches Err(e) && e@ == "unsupported clipboard image type: "@ + mime_type@,
        },
{
    if same_text(mime_type, "image/png") {
        Ok("png")
    } else if same_text(mime_type, "image/jpeg") {
        Ok("jpg")
    } else if same_text(mime_type, "image/bmp") {
        Ok("bmp")
    } else if same_text(mime_type, "image/tiff") {
        Ok("tiff")
    } else if same_text(mime_type, "image/webp") {
        Ok("webp")
    } else if same_text(mime_type, "image/gif") {
        Ok("gif")
    } else {
        let mut e = String::from_str("unsupported clipboard image type: ");
        e.append(mime_type);
        Err(e)
    }
}

/// Checks a request to read a file's metadata: the request id must hold more than
/// whitespace, and the path must be a regular file.
pub fn check_path_request(request_id: &str, is_regular_file: bool) -> (r: Result<(), String>)
    ensures
        if trim_spec(request_id@).len() == 0 {
            r matches Err(e) && e@ == "metadata request id is empty"@
        } else if !is_regular_file {
            r matches Err(e) && e@ == "selected metadata path is not a regular file"@
        } else {
            r is Ok
        },
{
    if trim(request_id).is_empty() {
        return Err(String::from_str("metadata request id is empty"));
    }
    if !is_regular_file {
        return Err(String::from_str("selected metadata path is not a regular file"));
    }
    Ok(())
}

/// Checks a request to read a clipboard image's metadata and decodes the image: the
/// request id must hold more than whitespace, the base64 text must be within
/// `MAX_ENCODED_IMAGE_BYTES`, it must decode to 1 to `MAX_IMAGE_BYTES` bytes, and the
/// image type must be taken, in that order.
pub fn check_image_request(request_id: &str, image_base64: &str, mime_type: &str) -> (r: Result<Vec<u8>, String>)
    ensures
        if trim_spec(request_id@).len() == 0 {
            r matches Err(e) && e@ == "metadata request id is empty"@
        } else if str_len(image_base64@) > MAX_ENCODED_IMAGE_BYTES {
            r matches Err(e) && e@ == "encoded image exceeds 10485760 decoded bytes"@
        } else {
            match base64_decoded(image_base64@) {
                None => r matches Err(e) && "invalid base64 image: "@.is_prefix_of(e@),
                Some(b) => if b.len() == 0 || b.len() > MAX_IMAGE_BYTES {
                    r matches Err(e) && e@ == "image must contain 1 to 10485760 bytes"@
                } else {
                    match mime_extension(mime_type@) {
                        None => r matches Err(e) && e@ == "unsupported clipboard image type: "@ + mime_type@,
                        Some(_) => r matches Ok(v) && v@ == b,
                    }
                },
            }
        },
{
    if trim(request_id).is_empty() {
        return Err(String::from_str("metadata request id is empty"));
    }
    if image_base64.len() > MAX_ENCODED_IMAGE_BYTES {
        return Err(String::from_str("encoded image exceeds 10485760 decoded bytes"));
    }
    let bytes = match crate::worker::media::decode_base64(image_base64) {
        Ok(b) => b,
        Err(e) => {
            let mut m = String::from_str("invalid base64 image: ");
            m.append(e.as_str());
            return Err(m);
        },
    };
    if bytes.len() == 0 || bytes.len() > MAX_IMAGE_BYTES {
        return Err(String::from_str("image must contain 1 to 10485760 bytes"));
    }
    match extension_for_mime(mime_type) {
        Ok(_) => Ok(bytes),
        Err(e) => Err(e),
    }
}

/// How a metadata job is read, once its source and backend are known.
#[derive(Debug, Clone, PartialEq, Eq)]
pub enum MetadataRead {
    /// The built-in library reads the file at the job's path.
    BuiltinPath,
    /// The built-in library reads the clipboard image's bytes; the document is named
    /// `file_name`.
    BuiltinImage { file_name: String },
    /// ExifTool reads the file at the job's path.
    ExternalPath,
    /// The clipboard image is written to a temporary file ending in `suffix`, which
    /// ExifTool reads; the document is named `file_name`.
    ExternalImage { suffix: String, file_name: String },
}

/// The message of a job for ExifTool where ExifTool is missing.
pub open spec fn external_missing_message() -> Seq<char> {
    "ExifTool is not available; choose the built-in backend"@
}

/// How a metadata job is read: `image_mime` is the type of a clipboard image, `None`
/// for a file path. ExifTool must be available for the external backend (checked
/// first), and a clipboard image's type must be taken; its document is named
/// `clipboard.<extension>`, and the temporary file for ExifTool ends in
/// `.<extension>`.
pub fn plan_metadata_job(image_mime: Option<&str>, backend: MetadataBackend, external_available: bool) -> (r:
    Result<MetadataRead, String>)
    ensures
        backend == MetadataBackend::External && !external_available ==> (r matches Err(e) && e@
            == external_missing_message()),
        !(backend == MetadataBackend::External && !external_available) ==> match image_mime {
            None => r == Ok::<MetadataRead, String>(
                if backend == MetadataBackend::External {
                    MetadataRead::ExternalPath
                } else {
                    MetadataRead::BuiltinPath
                },
            ),
            Some(m) => match mime_extension(m@) {
                None => r matches Err(e) && e@ == "unsupported clipboard image type: "@ + m@,
                Some(x) => if backend == MetadataBackend::External {
                    r matches Ok(MetadataRead::ExternalImage { suffix, file_name }) && suffix@ == "."@ + x
                        && file_name@ == "clipboard."@ + x
                } else {
                    r matches Ok(MetadataRead::BuiltinImage { file_name }) && file_name@ == "clipboard."@ + x
                },
            },
        },
{
    let external = match backend {
        MetadataBackend::External => true,
        MetadataBackend::Builtin => false,
    };
    if external && !external_available {
        return Err(String::from_str("ExifTool is not available; choose the built-in backend"));
    }
    match image_mime {
        None => if external {
            Ok(MetadataRead::ExternalPath)
        } else {
            Ok(MetadataRead::BuiltinPath)
        },
        Some(m) => {
            let extension = match extension_for_mime(m) {
                Ok(x) => x,
                Err(e) => return Err(e),
            };
            let mut file_name = String::from_str("clipboard.");
            file_name.append(extension);
            if external {
                let mut suffix = String::from_str(".");
                suffix.append(extension);
                Ok(MetadataRead::ExternalImage { suffix, file_name })
            } else {
                Ok(MetadataRead::BuiltinImage { file_name })
            }
        },
    }
}

/// The document of a finished metadata job; `no readable metadata was found in this
/// file` where no field was read.
pub fn metadata_document(file_name: String, backend: MetadataBackend, fields: Vec<MetadataField>) -> (r: Result<
    MetadataDocument,
    String,
>)
    ensures
        fields@.len() == 0 ==> (r matches Err(e) && e@ == "no readable metadata was found in this file"@),
        fields@.len() > 0 ==> r == Ok::<MetadataDocument, String>(MetadataDocument { file_name, backend, fields }),
{
    if fields.len() == 0 {
        return Err(String::from_str("no readable metadata was found in this file"));
    }
    Ok(MetadataDocument { file_name, backend, fields })
}

} // verus!
