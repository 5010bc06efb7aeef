use smithy_core::endpoint::{Builder, Document, Endpoint, Error};

fn lookup_header<'a>(ep: &'a Endpoint, name: &str) -> Option<&'a Vec<String>> {
    ep.headers()
        .iter()
        .find(|(n, _)| n == name)
        .map(|(_, vs)| vs)
}

fn lookup_property<'a>(ep: &'a Endpoint, key: &str) -> Option<&'a Document> {
    ep.properties()
        .iter()
        .find(|(k, _)| k == key)
        .map(|(_, v)| v)
}

#[test]
fn builder_accumulates_an_endpoint() {
    let ep = Endpoint::builder()
        .url("https://example.com")
        .header("x-amz-a", "1")
        .header("x-amz-b", "2")
        .property("k", Document::Bool(true))
        .build();
    assert_eq!(ep.url(), "https://example.com");
    assert_eq!(lookup_header(&ep, "x-amz-a"), Some(&vec!["1".to_string()]));
    assert_eq!(lookup_header(&ep, "x-amz-b"), Some(&vec!["2".to_string()]));
    assert_eq!(lookup_property(&ep, "k"), Some(&Document::Bool(true)));
}

#[test]
fn url_last_write_wins() {
    let ep = Builder::new().url("https://a").url("https://b").build();
    assert_eq!(ep.url(), "https://b");
}

#[test]
fn header_values_append_in_order() {
    let ep = Builder::new()
        .header("h", "first")
        .header("h", "second")
        .header("h", "third")
        .build();
    assert_eq!(
        lookup_header(&ep, "h"),
        Some(&vec![
            "first".to_string(),
            "second".to_string(),
            "third".to_string()
        ])
    );
    assert_eq!(ep.headers().len(), 1);
}

#[test]
fn property_last_write_wins() {
    let ep = Builder::new()
        .property("k", Document::PosInt(1))
        .property("k", Document::String("two".to_string()))
        .property("other", Document::Null)
        .build();
    assert_eq!(
        lookup_property(&ep, "k"),
        Some(&Document::String("two".to_string()))
    );
    assert_eq!(lookup_property(&ep, "other"), Some(&Document::Null));
    assert_eq!(ep.properties().len(), 2);
}

#[test]
fn builder_accepts_invalid_values_without_checking() {
    let ep = Builder::new().url("not a url").header("", "v").build();
    assert_eq!(ep.url(), "not a url");
    assert_eq!(lookup_header(&ep, ""), Some(&vec!["v".to_string()]));
}

#[test]
fn error_carries_message() {
    let e = Error::msg("resolution failed");
    assert_eq!(e, Error { message: "resolution failed".to_string() });
}
