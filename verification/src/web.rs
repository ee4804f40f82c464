//! URLs, through the `url` crate: parsing, joining and query building.
use vstd::prelude::*;

verus! {

#[verifier::external_type_specification]
#[verifier::external_body]
pub struct ExUrlParseError(url::ParseError);

/// The host of a URL: a domain name or an IP address.
#[derive(Debug, Clone)]
pub enum UrlHost {
    Domain(String),
    Ipv4([u8; 4]),
    Ipv6([u16; 8]),
}

pub enum HostView {
    Domain(Seq<char>),
    Ipv4(Seq<u8>),
    Ipv6(Seq<u16>),
}

/// The parts of a parsed URL that the library reads.
pub struct UrlView {
    pub text: Seq<char>,
    pub scheme: Seq<char>,
    pub host: Option<HostView>,
}

/// A URL that parsed: its serialization, scheme and host.
#[derive(Debug, Clone)]
pub struct ParsedUrl {
    text: String,
    scheme: String,
    host: Option<UrlHost>,
}

impl UrlHost {
    pub open spec fn view_host(self) -> HostView {
        match self {
            UrlHost::Domain(d) => HostView::Domain(d@),
            UrlHost::Ipv4(a) => HostView::Ipv4(a@),
            UrlHost::Ipv6(a) => HostView::Ipv6(a@),
        }
    }
}

impl View for ParsedUrl {
    type V = UrlView;

    closed spec fn view(&self) -> UrlView {
        UrlView {
            text: self.text@,
            scheme: self.scheme@,
            host: match self.host {
                Some(h) => Some(h.view_host()),
                None => None,
            },
        }
    }
}

impl ParsedUrl {
    /// The serialization of the URL.
    pub fn as_str(&self) -> (r: &str)
        ensures
            r@ == self@.text,
    {
        self.text.as_str()
    }

    /// The lowercase scheme, without the `:`.
    pub fn scheme(&self) -> (r: &str)
        ensures
            r@ == self@.scheme,
    {
        self.scheme.as_str()
    }

    pub fn host(&self) -> (r: Option<&UrlHost>)
        ensures
            match r {
                Some(h) => self@.host == Some(h.view_host()),
                None => self@.host is None,
            },
    {
        match &self.host {
            Some(h) => Some(h),
            None => None,
        }
    }

    /// Parses `input` as an absolute URL.
    pub fn parse(input: &str) -> (r: Result<ParsedUrl, url::ParseError>)
        ensures
            match r {
                Ok(u) => url_parsed(input@) == Some(u@),
                Err(_) => url_parsed(input@) is None,
            },
    {
        parse_url(input)
    }
}

/// What `Url::parse` makes of a text: the parsed URL's parts, or nothing
/// when the text is not an absolute URL.
pub uninterp spec fn url_parsed(input: Seq<char>) -> Option<UrlView>;

/// What `Url::join` gives for a base URL (by its serialization) and a
/// reference, as a serialization.
pub uninterp spec fn url_joined(base: Seq<char>, input: Seq<char>) -> Option<Seq<char>>;

/// The serialization of a URL (given by its serialization) after
/// `query_pairs_mut().append_pair(key, value)`.
pub uninterp spec fn url_with_pair(url: Seq<char>, key: Seq<char>, value: Seq<char>) -> Option<Seq<char>>;

/// `url::Url::parse`, reading back its serialization, scheme and host.
/// Trusted: the result is the named parse of the input.
#[verifier::external_body]
fn parse_url(input: &str) -> (r: Result<ParsedUrl, url::ParseError>)
    ensures
        match r {
            Ok(u) => url_parsed(input@) == Some(u@),
            Err(_) => url_parsed(input@) is None,
        },
{
    let u = url::Url::parse(input)?;
    let host = match u.host() {
        Some(url::Host::Domain(d)) => Some(UrlHost::Domain(d.to_owned())),
        Some(url::Host::Ipv4(a)) => Some(UrlHost::Ipv4(a.octets())),
        Some(url::Host::Ipv6(a)) => Some(UrlHost::Ipv6(a.segments())),
        None => None,
    };
    Ok(ParsedUrl { text: u.as_str().to_owned(), scheme: u.scheme().to_owned(), host })
}

/// `url::Url::join` on a base given by its serialization.  Trusted: the
/// result is the named join.
#[verifier::external_body]
pub(crate) fn url_join(base: &str, input: &str) -> (r: Result<String, url::ParseError>)
    ensures
        match r {
            Ok(s) => url_joined(base@, input@) == Some(s@),
            Err(_) => url_joined(base@, input@) is None,
        },
{
    let base = url::Url::parse(base)?;
    Ok(base.join(input)?.into())
}

/// `url::Url::query_pairs_mut().append_pair` on a URL given by its
/// serialization.  Trusted: the result is the named serialization.
#[verifier::external_body]
pub(crate) fn url_append_pair(url: &str, key: &str, value: &str) -> (r: Result<String, url::ParseError>)
    ensures
        match r {
            Ok(s) => url_with_pair(url@, key@, value@) == Some(s@),
            Err(_) => url_with_pair(url@, key@, value@) is None,
        },
{
    let mut url = url::Url::parse(url)?;
    url.query_pairs_mut().append_pair(key, value);
    Ok(url.into())
}

/// The serialization of `input` parsed as a URL, when it parses.
pub open spec fn parsed_url_text(input: Seq<char>) -> Option<Seq<char>> {
    match url_parsed(input) {
        Some(u) => Some(u.text),
        None => None,
    }
}

/// `input.and_then(|s| Url::parse(s).ok())`, as a serialization.
pub fn url_text_if_valid(input: Option<&str>) -> (r: Option<String>)
    ensures
        match input {
            Some(s) => match r {
                Some(t) => parsed_url_text(s@) == Some(t@),
                None => parsed_url_text(s@) is None,
            },
            None => r is None,
        },
{
    match input {
        Some(s) => match ParsedUrl::parse(s) {
            Ok(u) => Some(u.as_str().to_owned()),
            Err(_) => None,
        },
        None => None,
    }
}

} // verus!
