//! Debug settings of the worker's WebView: the switch that turns debugging on, the
//! port of a local front-end development server, and the rule that the server the
//! WebView loads in debug mode must run on this machine.

use vstd::prelude::*;
use crate::text::{dec, parse_u64, parse_u64_spec, same_text, to_ascii_lowercase, ascii_lower_seq, trim,
    trim_spec, u64_to_string, views};

verus! {

broadcast use vstd::string::group_string_axioms;

/// The values that switch an environment flag on.
pub open spec fn flag_on(value: Seq<char>) -> bool {
    value == "1"@ || value == "true"@ || value == "yes"@ || value == "on"@
}

/// Whether an environment flag is on, given the variable's value (`None` where it is
/// unset or not Unicode).
pub fn environment_flag(value: Option<&str>) -> (r: bool)
    ensures
        r == (value matches Some(v) && flag_on(v@)),
{
    match value {
        Some(v) => same_text(v, "1") || same_text(v, "true") || same_text(v, "yes") || same_text(v, "on"),
        None => false,
    }
}

/// Why a development server port was refused.
#[derive(Debug, Clone, Copy, PartialEq, Eq, Structural)]
pub enum PortError {
    /// The text is not an integer from 0 to 65535.
    Invalid,
    /// The port is 0.
    Zero,
}

/// The message of a port error.
pub open spec fn port_error_message(e: PortError) -> Seq<char> {
    match e {
        PortError::Invalid => "DEVTOOLS_WEBVIEW_PORT 不是有效的端口号"@,
        PortError::Zero => "DEVTOOLS_WEBVIEW_PORT 必须大于 0"@,
    }
}

impl PortError {
    /// The message shown for the error.
    pub fn message(&self) -> (r: String)
        ensures
            r@ == port_error_message(*self),
    {
        match self {
            PortError::Invalid => String::from_str("DEVTOOLS_WEBVIEW_PORT 不是有效的端口号"),
            PortError::Zero => String::from_str("DEVTOOLS_WEBVIEW_PORT 必须大于 0"),
        }
    }
}

/// The port that the text names: surrounding whitespace is ignored, the rest must
/// read as a `u16` (an optional `+`, then digits), and the port must not be 0.
pub open spec fn port_of(value: Seq<char>) -> Result<u16, PortError> {
    match parse_u64_spec(trim_spec(value)) {
        Some(n) => if n > u16::MAX {
            Err(PortError::Invalid)
        } else if n == 0 {
            Err(PortError::Zero)
        } else {
            Ok(n as u16)
        },
        None => Err(PortError::Invalid),
    }
}

/// The development server port that `value` names.
pub fn development_port(value: &str) -> (r: Result<u16, PortError>)
    ensures
        r == port_of(value@),
{
    match parse_u64(trim(value)) {
        Some(n) => if n > 65535 {
            Err(PortError::Invalid)
        } else if n == 0 {
            Err(PortError::Zero)
        } else {
            Ok(n as u16)
        },
        None => Err(PortError::Invalid),
    }
}

/// The address of the development server on `port` of this machine.
pub open spec fn loopback_url(port: u16) -> Seq<char> {
    "http://127.0.0.1:"@ + dec(port as nat)
}

/// The address of the development server whose port `value` names.
pub fn development_url_for_port(value: &str) -> (r: Result<String, PortError>)
    ensures
        match port_of(value@) {
            Ok(p) => r matches Ok(s) && s@ == loopback_url(p),
            Err(e) => r == Err::<String, PortError>(e),
        },
{
    match development_port(value) {
        Ok(port) => {
            let mut s = String::from_str("http://127.0.0.1:");
            let digits = u64_to_string(port as u64);
            s.append(digits.as_str());
            Ok(s)
        },
        Err(e) => Err(e),
    }
}

/// The host of a parsed URL.
#[derive(Debug, Clone)]
pub enum UrlHost {
    /// A domain name.
    Domain(String),
    /// An IPv4 address, by its octets.
    Ipv4([u8; 4]),
    /// An IPv6 address, by its segments.
    Ipv6([u16; 8]),
    /// The URL has no host.
    Missing,
}

/// What a URL host holds.
pub enum UrlHostView {
    Domain(Seq<char>),
    Ipv4(Seq<u8>),
    Ipv6(Seq<u16>),
    Missing,
}

impl View for UrlHost {
    type V = UrlHostView;

    open spec fn view(&self) -> UrlHostView {
        match self {
            UrlHost::Domain(d) => UrlHostView::Domain(d@),
            UrlHost::Ipv4(o) => UrlHostView::Ipv4(o@),
            UrlHost::Ipv6(s) => UrlHostView::Ipv6(s@),
            UrlHost::Missing => UrlHostView::Missing,
        }
    }
}

/// A URL as the `url` crate parses it: its scheme, its host and its serialization.
#[derive(Debug, Clone)]
pub struct WebUrl {
    pub scheme: String,
    pub host: UrlHost,
    pub serialized: String,
}

/// What a parsed URL holds.
pub struct WebUrlView {
    pub scheme: Seq<char>,
    pub host: UrlHostView,
    pub serialized: Seq<char>,
}

impl View for WebUrl {
    type V = WebUrlView;

    open spec fn view(&self) -> WebUrlView {
        WebUrlView { scheme: self.scheme@, host: self.host@, serialized: self.serialized@ }
    }
}

#[verifier::external_type_specification]
#[verifier::external_body]
pub struct ExUrlParseError(url::ParseError);

/// The URL that `url::Url::parse` makes of `text`, or `None` where it refuses it.
pub uninterp spec fn parsed_url(text: Seq<char>) -> Option<WebUrlView>;

/// `url::Url::parse` on `text`, with the scheme, the host and the serialization
/// (`Url::to_string`) of the result taken out. The contract claims that the outcome
/// is a function of `text` alone: the parsed URL is `parsed_url(text)`, and an error
/// comes exactly where that is `None`. Which error comes is not stated.
#[verifier::external_body]
fn parse_with_url_crate(text: &str) -> (r: Result<WebUrl, url::ParseError>)
    ensures
        match r {
            Ok(u) => parsed_url(text@) == Some(u@),
            Err(_) => parsed_url(text@) is None,
        },
{
    let url = url::Url::parse(text)?;
    let host = match url.host() {
        Some(url::Host::Domain(d)) => UrlHost::Domain(d.to_string()),
        Some(url::Host::Ipv4(a)) => UrlHost::Ipv4(a.octets()),
        Some(url::Host::Ipv6(a)) => UrlHost::Ipv6(a.segments()),
        None => UrlHost::Missing,
    };
    Ok(WebUrl { scheme: url.scheme().to_string(), host, serialized: url.to_string() })
}

/// The text that `url::ParseError` displays. It is not stated.
#[verifier::external_body]
pub(crate) fn url_error_text(e: &url::ParseError) -> (r: String) {
    e.to_string()
}

impl WebUrl {
    /// `text` parsed as a URL.
    pub fn parse(text: &str) -> (r: Result<WebUrl, url::ParseError>)
        ensures
            r is Ok <==> parsed_url(text@) is Some,
            r matches Ok(u) ==> parsed_url(text@) == Some(u@),
    {
        parse_with_url_crate(text)
    }
}

/// The IPv6 loopback address `::1`, by its segments.
pub open spec fn ipv6_loopback() -> Seq<u16> {
    seq![0u16, 0u16, 0u16, 0u16, 0u16, 0u16, 0u16, 1u16]
}

/// A URL of an HTTP or HTTPS server on this machine: its host is `localhost` in any
/// case of ASCII letters, an IPv4 address in `127.0.0.0/8`, or the IPv6 address `::1`.
pub open spec fn loopback_http(u: WebUrlView) -> bool {
    &&& (u.scheme == "http"@ || u.scheme == "https"@)
    &&& match u.host {
        UrlHostView::Domain(d) => ascii_lower_seq(d) == "localhost"@,
        UrlHostView::Ipv4(o) => o.len() == 4 && o[0] == 127u8,
        UrlHostView::Ipv6(s) => s == ipv6_loopback(),
        UrlHostView::Missing => false,
    }
}

/// Whether `url` addresses an HTTP or HTTPS server on this machine.
pub fn is_loopback_http_url(url: &WebUrl) -> (r: bool)
    ensures
        r == loopback_http(url@),
{
    if !(same_text(url.scheme.as_str(), "http") || same_text(url.scheme.as_str(), "https")) {
        return false;
    }
    match &url.host {
        UrlHost::Domain(d) => {
            let lower = to_ascii_lowercase(d.as_str());
            same_text(lower.as_str(), "localhost")
        },
        UrlHost::Ipv4(o) => {
            assert(o@.len() == 4);
            o[0] == 127
        },
        UrlHost::Ipv6(s) => {
            assert(s@.len() == 8);
            let r = s[0] == 0 && s[1] == 0 && s[2] == 0 && s[3] == 0 && s[4] == 0 && s[5] == 0 && s[6] == 0
                && s[7] == 1;
            assert(r ==> s@ =~= ipv6_loopback());
            r
        },
        UrlHost::Missing => false,
    }
}

/// Why the address of a development server was refused.
#[derive(Debug)]
pub enum DevelopmentUrlError {
    /// The text is not a URL.
    InvalidUrl(url::ParseError),
    /// The URL does not address an HTTP or HTTPS server on this machine.
    NotLoopback,
}

/// The message of a refused development server address.
pub open spec fn not_loopback_message() -> Seq<char> {
    "DEVTOOLS_WEBVIEW_URL 只允许本机 HTTP/HTTPS 开发服务器"@
}

impl DevelopmentUrlError {
    /// The message shown for the error. That of an invalid URL is the one the `url`
    /// crate gives, and is not stated.
    pub fn message(&self) -> (r: String)
        ensures
            self is NotLoopback ==> r@ == not_loopback_message(),
    {
        match self {
            DevelopmentUrlError::InvalidUrl(e) => url_error_text(e),
            DevelopmentUrlError::NotLoopback => String::from_str("DEVTOOLS_WEBVIEW_URL 只允许本机 HTTP/HTTPS 开发服务器"),
        }
    }
}

/// The address that the WebView loads in debug mode, from the configured `value`:
/// `value` must parse as a URL of an HTTP or HTTPS server on this machine, and the
/// result is that URL's serialization.
pub fn development_url(value: &str) -> (r: Result<String, DevelopmentUrlError>)
    ensures
        match parsed_url(value@) {
            None => r matches Err(DevelopmentUrlError::InvalidUrl(_)),
            Some(u) => if loopback_http(u) {
                r matches Ok(s) && s@ == u.serialized
            } else {
                r matches Err(DevelopmentUrlError::NotLoopback)
            },
        },
{
    match WebUrl::parse(value) {
        Ok(url) => {
            if is_loopback_http_url(&url) {
                Ok(url.serialized)
            } else {
                Err(DevelopmentUrlError::NotLoopback)
            }
        },
        Err(e) => Err(DevelopmentUrlError::InvalidUrl(e)),
    }
}

/// Checks a link from the web view before it is handed to the desktop: it must be a
/// URL whose scheme is among `schemes`. The error is `invalid url: ` and the `url`
/// crate's message, or `refused` followed by the link.
pub(crate) fn check_external_url(url: &str, schemes: &[&str], refused: &str) -> (r: Result<(), String>)
    ensures
        match parsed_url(url@) {
            None => r matches Err(e) && "invalid url: "@.is_prefix_of(e@),
            Some(u) => if views(schemes@).contains(u.scheme) {
                r is Ok
            } else {
                r matches Err(e) && e@ == refused@ + url@
            },
        },
{
    let parsed = match WebUrl::parse(url) {
        Ok(u) => u,
        Err(error) => {
            let mut e = String::from_str("invalid url: ");
            let text = url_error_text(&error);
            e.append(text.as_str());
            return Err(e);
        },
    };
    let mut i: usize = 0;
    while i < schemes.len()
        invariant
            i <= schemes@.len(),
            parsed_url(url@) == Some(parsed@),
            forall|j: int| 0 <= j < i ==> schemes@[j]@ != parsed.scheme@,
        decreases schemes@.len() - i,
    {
        if same_text(schemes[i], parsed.scheme.as_str()) {
            assert(views(schemes@).len() == schemes@.len());
            assert(views(schemes@)[i as int] == schemes@[i as int]@);
            assert(views(schemes@).contains(parsed.scheme@));
            return Ok(());
        }
        i = i + 1;
    }
    assert(!views(schemes@).contains(parsed.scheme@)) by {
        assert forall|j: int| 0 <= j < schemes@.len() implies #[trigger] views(schemes@)[j] != parsed.scheme@ by {
            assert(views(schemes@)[j] == schemes@[j]@);
        }
    }
    let mut e = String::from_str(refused);
    e.append(url);
    Err(e)
}

} // verus!
