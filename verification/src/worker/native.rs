//! The rules of the worker's native converter (the PHP command line): its formats and
//! directions, what it offers, how its requests are checked and how its output is
//! read.

use vstd::prelude::*;
use crate::model::MAX_TEXT_BYTES;
use crate::text::{dec, str_len, trim, trim_spec, u64_to_string};

verus! {

broadcast use vstd::string::group_string_axioms;

/// Largest output read from the converter, in bytes.
pub const MAX_OUTPUT_BYTES: usize = 8 * 1024 * 1024;

/// A PHP text format.
#[derive(Debug, Clone, Copy, PartialEq, Eq, Structural)]
pub enum NativeFormat {
    Serialize,
    VarExport,
    Array,
}

/// Which way a conversion goes: from PHP text to JSON, or back.
#[derive(Debug, Clone, Copy, PartialEq, Eq, Structural)]
pub enum ConversionDirection {
    Parse,
    Stringify,
}

pub open spec fn format_name(f: NativeFormat) -> Seq<char> {
    match f {
        NativeFormat::Serialize => "php-serialize"@,
        NativeFormat::VarExport => "php-var-export"@,
        NativeFormat::Array => "php-array"@,
    }
}

pub open spec fn direction_name(d: ConversionDirection) -> Seq<char> {
    match d {
        ConversionDirection::Parse => "parse"@,
        ConversionDirection::Stringify => "stringify"@,
    }
}

impl NativeFormat {
    /// The name that the converter script takes.
    pub fn as_str(self) -> (r: &'static str)
        ensures
            r@ == format_name(self),
    {
        match self {
            NativeFormat::Serialize => "php-serialize",
            NativeFormat::VarExport => "php-var-export",
            NativeFormat::Array => "php-array",
        }
    }
}

impl ConversionDirection {
    /// The name that the converter script takes.
    pub fn as_str(self) -> (r: &'static str)
        ensures
            r@ == direction_name(self),
    {
        match self {
            ConversionDirection::Parse => "parse",
            ConversionDirection::Stringify => "stringify",
        }
    }
}

/// What the native converter offers.
#[derive(Debug, Clone)]
pub struct ConverterCapabilities {
    pub native_formats: Vec<NativeFormat>,
    pub php_version: Option<String>,
}

/// The capabilities for the PHP version found (`None` where there is no PHP): all
/// three formats where PHP is there, none otherwise.
pub fn capabilities_for(php_version: Option<String>) -> (r: ConverterCapabilities)
    ensures
        r.php_version == php_version,
        php_version is Some ==> r.native_formats@ == seq![
            NativeFormat::Serialize,
            NativeFormat::VarExport,
            NativeFormat::Array,
        ],
        php_version is None ==> r.native_formats@.len() == 0,
{
    let mut native_formats: Vec<NativeFormat> = Vec::new();
    if php_version.is_some() {
        native_formats.push(NativeFormat::Serialize);
        native_formats.push(NativeFormat::VarExport);
        native_formats.push(NativeFormat::Array);
        assert(native_formats@ =~= seq![NativeFormat::Serialize, NativeFormat::VarExport, NativeFormat::Array]);
    }
    ConverterCapabilities { native_formats, php_version }
}

/// The PHP version that `php -r 'echo PHP_VERSION;'` printed: the text trimmed, where
/// it is not empty.
pub fn version_from_output(output: &str) -> (r: Option<String>)
    ensures
        match r {
            Some(v) => trim_spec(output@).len() > 0 && v@ == trim_spec(output@),
            None => trim_spec(output@).len() == 0,
        },
{
    let t = trim(output);
    if t.is_empty() {
        None
    } else {
        Some(String::from_str(t))
    }
}

/// What the native converter reports to the web view for one request.
#[derive(Debug, Clone)]
pub struct NativeConversionResult {
    pub request_id: String,
    pub result: Option<String>,
    pub error: Option<String>,
}

impl NativeConversionResult {
    /// The conversion failed with `error`.
    pub fn error(request_id: String, error: String) -> (r: NativeConversionResult)
        ensures
            r.request_id@ == request_id@,
            r.result is None,
            r.error matches Some(e) && e@ == error@,
    {
        NativeConversionResult { request_id, result: None, error: Some(error) }
    }

    /// The conversion gave `result`.
    pub fn success(request_id: String, result: String) -> (r: NativeConversionResult)
        ensures
            r.request_id@ == request_id@,
            r.result matches Some(t) && t@ == result@,
            r.error is None,
    {
        NativeConversionResult { request_id, result: Some(result), error: None }
    }
}

/// The message for an oversized conversion input.
pub open spec fn too_large_input_message(n: nat) -> Seq<char> {
    "input is too large: "@ + dec(n) + " bytes (maximum 2097152)"@
}

/// Checks a conversion request before it is queued: the request id must not be empty
/// and the payload must be within the text limit.
pub fn check_native_request(request_id: &str, payload: &str) -> (r: Result<(), String>)
    ensures
        if request_id@.len() == 0 {
            r matches Err(e) && e@ == "native conversion request id is empty"@
        } else if str_len(payload@) > MAX_TEXT_BYTES {
            r matches Err(e) && e@ == too_large_input_message(str_len(payload@) as nat)
        } else {
            r is Ok
        },
{
    if request_id.is_empty() {
        return Err(String::from_str("native conversion request id is empty"));
    }
    if payload.len() > MAX_TEXT_BYTES {
        let mut e = String::from_str("input is too large: ");
        let n = u64_to_string(payload.len() as u64);
        e.append(n.as_str());
        e.append(" bytes (maximum 2097152)");
        return Err(e);
    }
    Ok(())
}

/// Keeps what a helper printed where it is within `maximum` bytes; else `<subject>
/// output exceeds <maximum> bytes`.
pub fn checked_output(output: Vec<u8>, maximum: usize, subject: &str) -> (r: Result<Vec<u8>, String>)
    ensures
        output@.len() <= maximum ==> r == Ok::<Vec<u8>, String>(output),
        output@.len() > maximum ==> (r matches Err(e) && e@ == subject@ + " output exceeds "@ + dec(
            maximum as nat,
        ) + " bytes"@),
{
    if output.len() > maximum {
        let mut e = String::from_str(subject);
        e.append(" output exceeds ");
        let n = u64_to_string(maximum as u64);
        e.append(n.as_str());
        e.append(" bytes");
        return Err(e);
    }
    Ok(output)
}

/// The reply to every conversion job when no PHP command line was found.
pub const PHP_UNAVAILABLE: &'static str = "PHP CLI is not available";

/// What the converter does with a job: runs it where PHP was found (`None`), and else
/// replies at once, for the job's request, with the error `PHP CLI is not available`.
pub fn native_job_gate(php_available: bool, request_id: &str) -> (r: Option<NativeConversionResult>)
    ensures
        php_available ==> r is None,
        !php_available ==> (r matches Some(res) && res.request_id@ == request_id@ && res.result is None
            && (res.error matches Some(e) && e@ == PHP_UNAVAILABLE@)),
{
    if php_available {
        None
    } else {
        Some(NativeConversionResult::error(String::from_str(request_id), String::from_str(PHP_UNAVAILABLE)))
    }
}

} // verus!
