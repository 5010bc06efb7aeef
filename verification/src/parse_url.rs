//! Validation of a candidate endpoint URL. A text is accepted only when it
//! parses both as a generic URI and as a web URL (the two parsers disagree on
//! some loose forms), carries no query component, uses an http or https
//! scheme, and has an authority. An accepted [`Url`] exposes its scheme,
//! authority, raw and normalized path, and whether its host is a literal IP
//! address.

use vstd::prelude::*;

verus! {

use crate::strutil::str_eq;

/// Whether the text parses as a generic URI, exactly as `http::Uri::from_str`
/// decides it.
pub uninterp spec fn uri_accepts(s: Seq<char>) -> bool;

/// The authority component that generic-URI parsing finds in the text, if
/// any.
pub uninterp spec fn uri_authority(s: Seq<char>) -> Option<Seq<char>>;

/// The path component that generic-URI parsing finds in the text.
pub uninterp spec fn uri_path(s: Seq<char>) -> Seq<char>;

/// The query component that generic-URI parsing finds in the text, if any.
pub uninterp spec fn uri_query(s: Seq<char>) -> Option<Seq<char>>;

/// Whether the text parses as a web URL, exactly as `url::Url::parse`
/// decides it.
pub uninterp spec fn web_accepts(s: Seq<char>) -> bool;

/// The (ASCII-lowercased) scheme that web-URL parsing finds in the text.
pub uninterp spec fn web_scheme(s: Seq<char>) -> Seq<char>;

/// The kind of host that web-URL parsing finds in the text.
pub uninterp spec fn web_host_kind(s: Seq<char>) -> HostKind;

/// The kind of host of a parsed web URL.
#[derive(Debug, Clone, Copy, PartialEq, Eq, Structural)]
pub enum HostKind {
    /// No host at all.
    Absent,
    /// A registered or opaque domain name.
    Domain,
    /// A literal IPv4 address.
    Ipv4,
    /// A literal IPv6 address.
    Ipv6,
}

/// The components that generic-URI parsing finds in a text.
pub struct UriParts {
    pub authority: Option<String>,
    pub path: String,
    pub query: Option<String>,
}

/// The components that web-URL parsing finds in a text.
pub struct WebParts {
    pub scheme: String,
    pub host: HostKind,
}

/// Relies on http::Uri::from_str, and on Uri::authority, Uri::path and
/// Uri::query of the parsed value: whether the text parses and what each
/// component holds depend on the text alone.
#[verifier::external_body]
fn parse_uri_parts(s: &str) -> (r: Option<UriParts>)
    ensures
        r is Some <==> uri_accepts(s@),
        r matches Some(p) ==> {
            &&& p.authority.deep_view() == uri_authority(s@)
            &&& p.path@ == uri_path(s@)
            &&& p.query.deep_view() == uri_query(s@)
        },
{
    match s.parse::<http::Uri>() {
        Ok(uri) => Some(
            UriParts {
                authority: uri.authority().map(|a| a.as_str().to_string()),
                path: uri.path().to_string(),
                query: uri.query().map(|q| q.to_string()),
            },
        ),
        Err(_) => None,
    }
}

/// Relies on url::Url::parse, and on Url::scheme and Url::host of the parsed
/// value: whether the text parses, the lowercased scheme and the host kind
/// depend on the text alone.
#[verifier::external_body]
fn parse_web_parts(s: &str) -> (r: Option<WebParts>)
    ensures
        r is Some <==> web_accepts(s@),
        r matches Some(p) ==> p.scheme@ == web_scheme(s@) && p.host == web_host_kind(s@),
{
    match url::Url::parse(s) {
        Ok(u) => Some(
            WebParts {
                scheme: u.scheme().to_string(),
                host: match u.host() {
                    None => HostKind::Absent,
                    Some(url::Host::Domain(_)) => HostKind::Domain,
                    Some(url::Host::Ipv4(_)) => HostKind::Ipv4,
                    Some(url::Host::Ipv6(_)) => HostKind::Ipv6,
                },
            },
        ),
        Err(_) => None,
    }
}

/// A validated endpoint URL: both parsers accepted the text, the scheme is
/// http or https, no query component exists, and an authority is present.
#[derive(Debug)]
pub struct Url {
    pub scheme: String,
    pub authority: String,
    pub path: String,
    pub host: HostKind,
}

/// Exactly when a text is accepted as an endpoint URL.
pub open spec fn spec_url_accepted(s: Seq<char>) -> bool {
    &&& uri_accepts(s)
    &&& web_accepts(s)
    &&& uri_query(s) is None
    &&& (web_scheme(s) == "http"@ || web_scheme(s) == "https"@)
    &&& uri_authority(s) is Some
}

/// Parses and validates a candidate endpoint URL; yields nothing when the
/// text is rejected.
pub fn parse_url(url: &str) -> (r: Option<Url>)
    ensures
        r is Some <==> spec_url_accepted(url@),
        r matches Some(u) ==> {
            &&& u.scheme@ == web_scheme(url@)
            &&& uri_authority(url@) == Some(u.authority@)
            &&& u.path@ == uri_path(url@)
            &&& u.host == web_host_kind(url@)
        },
{
    let uri_parts = match parse_uri_parts(url) {
        Some(p) => p,
        None => {
            return None;
        },
    };
    let web = match parse_web_parts(url) {
        Some(w) => w,
        None => {
            return None;
        },
    };
    if uri_parts.query.is_some() {
        return None;
    }
    if !(str_eq(web.scheme.as_str(), "http") || str_eq(web.scheme.as_str(), "https")) {
        return None;
    }
    let authority = match uri_parts.authority {
        Some(a) => a,
        None => {
            return None;
        },
    };
    Some(Url { scheme: web.scheme, authority, path: uri_parts.path, host: web.host })
}

impl Url {
    /// True exactly when the host is a literal IPv4 or IPv6 address.
    pub fn is_ip(&self) -> (r: bool)
        ensures
            r == (self.host == HostKind::Ipv4 || self.host == HostKind::Ipv6),
    {
        match self.host {
            HostKind::Ipv4 => true,
            HostKind::Ipv6 => true,
            _ => false,
        }
    }

    pub fn scheme(&self) -> (r: &str)
        ensures
            r@ == self.scheme@,
    {
        self.scheme.as_str()
    }

    /// The authority. Constructing a [`Url`] implies an authority was
    /// present, so this is total.
    pub fn authority(&self) -> (r: &str)
        ensures
            r@ == self.authority@,
    {
        self.authority.as_str()
    }

    /// The raw path, with an empty path normalized to "/".
    pub fn normalized_path(&self) -> (r: &str)
        ensures
            self.path@.len() == 0 ==> r@ == "/"@,
            self.path@.len() != 0 ==> r@ == self.path@,
    {
        if self.path.as_str().is_empty() {
            "/"
        } else {
            self.path.as_str()
        }
    }

    /// The raw path.
    pub fn path(&self) -> (r: &str)
        ensures
            r@ == self.path@,
    {
        self.path.as_str()
    }
}

} // verus!
