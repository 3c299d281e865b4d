use devtools::worker::platform::check_external_url as linux_check;
use devtools::worker::windows::check_external_url as windows_check;
use devtools::worker::webview::{
    development_port, development_url, development_url_for_port, environment_flag, is_loopback_http_url,
    DevelopmentUrlError, PortError, WebUrl,
};

#[test]
fn development_url_only_accepts_loopback_http_servers() {
    for value in [
        "http://127.0.0.1:5173",
        "http://localhost:4173/path",
        "https://[::1]:5173",
    ] {
        assert!(is_loopback_http_url(&WebUrl::parse(value).unwrap()));
    }
    for value in ["https://example.com", "file:///tmp/index.html"] {
        assert!(!is_loopback_http_url(&WebUrl::parse(value).unwrap()));
    }
}

#[test]
fn development_port_builds_a_loopback_url() {
    assert_eq!(
        development_url_for_port("7173\n").unwrap(),
        "http://127.0.0.1:7173"
    );
    assert!(development_url_for_port("0").is_err());
    assert!(development_url_for_port("invalid").is_err());
}

#[test]
fn development_port_reads_trimmed_u16_values() {
    assert_eq!(development_port(" 5173 "), Ok(5173));
    assert_eq!(development_port("+80"), Ok(80));
    assert_eq!(development_port("65535"), Ok(65535));
    assert_eq!(development_port("65536"), Err(PortError::Invalid));
    assert_eq!(development_port("-1"), Err(PortError::Invalid));
    assert_eq!(development_port(""), Err(PortError::Invalid));
    assert_eq!(development_port("000"), Err(PortError::Zero));
    assert_eq!(PortError::Zero.message(), "DEVTOOLS_WEBVIEW_PORT 必须大于 0");
}

#[test]
fn environment_flag_accepts_only_the_switch_words() {
    for value in ["1", "true", "yes", "on"] {
        assert!(environment_flag(Some(value)));
    }
    for value in ["0", "TRUE", "On", "", " yes"] {
        assert!(!environment_flag(Some(value)));
    }
    assert!(!environment_flag(None));
}

#[test]
fn loopback_rule_covers_hosts_and_schemes() {
    for value in ["http://127.1.2.3/", "http://LOCALHOST:1/", "https://localhost"] {
        assert!(is_loopback_http_url(&WebUrl::parse(value).unwrap()));
    }
    for value in ["ftp://127.0.0.1/", "http://128.0.0.1/", "http://[::2]/", "http://localhost.example/"] {
        assert!(!is_loopback_http_url(&WebUrl::parse(value).unwrap()));
    }
}

#[test]
fn development_url_is_the_parsed_serialization() {
    assert_eq!(development_url("HTTP://LOCALHOST:5173").unwrap(), "http://localhost:5173/");
    assert!(matches!(development_url("https://example.com"), Err(DevelopmentUrlError::NotLoopback)));
    assert_eq!(
        development_url("https://example.com").unwrap_err().message(),
        "DEVTOOLS_WEBVIEW_URL 只允许本机 HTTP/HTTPS 开发服务器"
    );
    let invalid = development_url("not a url").unwrap_err();
    assert!(matches!(invalid, DevelopmentUrlError::InvalidUrl(_)));
    assert_eq!(invalid.message(), "relative URL without a base");
}

#[test]
fn external_links_are_checked_by_scheme() {
    assert_eq!(linux_check("https://github.com/TransparentLC/watermarker"), Ok(()));
    assert_eq!(linux_check("mailto:someone@example.com"), Ok(()));
    assert_eq!(
        linux_check("file:///etc/passwd"),
        Err("refused to open external url: file:///etc/passwd".to_owned())
    );
    assert_eq!(linux_check("no url"), Err("invalid url: relative URL without a base".to_owned()));
    assert_eq!(windows_check("http://example.com"), Ok(()));
    assert_eq!(
        windows_check("mailto:someone@example.com"),
        Err("refused to open non-http url: mailto:someone@example.com".to_owned())
    );
}
