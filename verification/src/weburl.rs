//! The parts of a URL that the gateway's rules read.
//!
//! Parsing is done by the `url` crate; this module holds what comes out of
//! it as plain values.

use vstd::prelude::*;
use vstd::string::*;

verus! {

/// The host of a URL.
#[derive(Debug)]
pub enum UrlHost {
    /// A DNS name.
    Domain(String),
    /// An IPv4 address, as its four octets.
    Ipv4([u8; 4]),
    /// An IPv6 address, as its eight 16-bit segments.
    Ipv6([u16; 8]),
}

/// A parsed URL: its scheme, its host (if it has one), the host as it is
/// written in the URL (if there is one) and its path.
#[derive(Debug)]
pub struct UrlParts {
    pub scheme: String,
    pub host: Option<UrlHost>,
    pub host_text: Option<String>,
    pub path: String,
}

/// [`UrlHost`] as plain values.
pub enum UrlHostView {
    Domain(Seq<char>),
    Ipv4(Seq<u8>),
    Ipv6(Seq<u16>),
}

/// [`UrlParts`] as plain values.
pub struct UrlPartsView {
    pub scheme: Seq<char>,
    pub host: Option<UrlHostView>,
    pub host_text: Option<Seq<char>>,
    pub path: Seq<char>,
}

impl View for UrlHost {
    type V = UrlHostView;

    open spec fn view(&self) -> UrlHostView {
        match self {
            UrlHost::Domain(d) => UrlHostView::Domain(d@),
            UrlHost::Ipv4(o) => UrlHostView::Ipv4(o@),
            UrlHost::Ipv6(s) => UrlHostView::Ipv6(s@),
        }
    }
}

impl View for UrlParts {
    type V = UrlPartsView;

    open spec fn view(&self) -> UrlPartsView {
        UrlPartsView {
            scheme: self.scheme@,
            host: match self.host {
                Some(h) => Some(h@),
                None => None,
            },
            host_text: self.host_text.deep_view(),
            path: self.path@,
        }
    }
}

/// The host of a URL as it is written there; empty where the URL has no
/// host.
pub open spec fn written_host(url: UrlPartsView) -> Seq<char> {
    match url.host_text {
        Some(h) => h,
        None => Seq::empty(),
    }
}

impl UrlParts {
    /// The host as it is written in the URL; empty where the URL has no
    /// host.
    pub fn host_str(&self) -> (r: &str)
        ensures
            r@ == written_host(self@),
    {
        match &self.host_text {
            Some(h) => h.as_str(),
            None => {
                proof {
                    reveal_strlit("");
                    assert(""@ =~= Seq::<char>::empty());
                }
                ""
            },
        }
    }
}

/// What the `url` crate makes of `input`: `None` where it does not parse.
pub uninterp spec fn url_parts(input: Seq<char>) -> Option<UrlPartsView>;

/// The view of an optional parse result.
pub open spec fn parts_view(p: Option<UrlParts>) -> Option<UrlPartsView> {
    match p {
        Some(u) => Some(u@),
        None => None,
    }
}

/// Parses with `Url::parse` and reads `scheme`, `host`, `host_str` and
/// `path` off the result. An IPv4 host is handed on as its octets, an IPv6
/// host as its segments.
#[verifier::external_body]
pub(crate) fn parse_url(input: &str) -> (r: Option<UrlParts>)
    ensures
        parts_view(r) == url_parts(input@),
{
    let u = url::Url::parse(input).ok()?;
    let host = match u.host() {
        Some(url::Host::Domain(d)) => Some(UrlHost::Domain(d.to_string())),
        Some(url::Host::Ipv4(a)) => Some(UrlHost::Ipv4(a.octets())),
        Some(url::Host::Ipv6(a)) => Some(UrlHost::Ipv6(a.segments())),
        None => None,
    };
    let host_text = u.host_str().map(str::to_owned);
    Some(UrlParts { scheme: u.scheme().to_string(), host, host_text, path: u.path().to_string() })
}

} // verus!
