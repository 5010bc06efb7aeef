use smithy_core::parse_url::parse_url;

#[test]
fn parse_simple_url() {}

#[test]
fn url_with_path_is_accepted() {
    let url = parse_url("https://example.com/path").expect("accepted");
    assert_eq!(url.scheme(), "https");
    assert_eq!(url.authority(), "example.com");
    assert_eq!(url.path(), "/path");
    assert_eq!(url.normalized_path(), "/path");
    assert!(!url.is_ip());
}

#[test]
fn url_with_query_is_rejected() {
    assert!(parse_url("https://example.com/?x=1").is_none());
    assert!(parse_url("https://example.com/path?q").is_none());
}

#[test]
fn url_with_other_scheme_is_rejected() {
    assert!(parse_url("ftp://example.com").is_none());
    assert!(parse_url("wss://example.com").is_none());
}

#[test]
fn url_with_ip_host_is_accepted() {
    let url = parse_url("https://1.2.3.4/").expect("accepted");
    assert!(url.is_ip());
    let url6 = parse_url("http://[2001:db8::1]/x").expect("accepted");
    assert!(url6.is_ip());
}

#[test]
fn url_http_scheme_is_accepted() {
    let url = parse_url("http://example.com").expect("accepted");
    assert_eq!(url.scheme(), "http");
    assert_eq!(url.normalized_path(), "/");
}

#[test]
fn url_garbage_is_rejected() {
    assert!(parse_url("not a url").is_none());
    assert!(parse_url("").is_none());
}
