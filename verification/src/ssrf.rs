//! Guard against server-side request forgery.
//!
//! A PDS URL comes out of identity resolution and is not to be trusted: it
//! must not point into private, loopback or otherwise reserved address
//! space. This is a check on the URL as written; it does not resolve names.

use crate::error::{AppError, ErrorKind};
use crate::text::{ascii_lower, chars_end_with, chars_eq, chars_of, chars_to_ascii_lower, str_eq};
use crate::weburl::{parse_url, parts_view, url_parts, UrlHost, UrlHostView, UrlParts, UrlPartsView};
use vstd::prelude::*;
use vstd::string::*;

verus! {

/// The IPv4 address `a.b.c.d` as a number.
pub open spec fn v4(a: int, b: int, c: int, d: int) -> int {
    ((a * 256 + b) * 256 + c) * 256 + d
}

/// The number of the IPv4 address with the given octets.
pub open spec fn ipv4_number(octets: Seq<u8>) -> int {
    v4(octets[0] as int, octets[1] as int, octets[2] as int, octets[3] as int)
}

/// The IPv4 addresses no PDS may have.
pub open spec fn blocked_ipv4(addr: int) -> bool {
    // loopback, 127.0.0.0/8
    ||| v4(127, 0, 0, 0) <= addr <= v4(127, 255, 255, 255)
    // private use (RFC 1918): 10.0.0.0/8, 172.16.0.0/12, 192.168.0.0/16
    ||| v4(10, 0, 0, 0) <= addr <= v4(10, 255, 255, 255)
    ||| v4(172, 16, 0, 0) <= addr <= v4(172, 31, 255, 255)
    ||| v4(192, 168, 0, 0) <= addr <= v4(192, 168, 255, 255)
    // link-local, 169.254.0.0/16
    ||| v4(169, 254, 0, 0) <= addr <= v4(169, 254, 255, 255)
    // broadcast and unspecified
    ||| addr == v4(255, 255, 255, 255)
    ||| addr == v4(0, 0, 0, 0)
    // documentation (TEST-NET-1, -2, -3)
    ||| v4(192, 0, 2, 0) <= addr <= v4(192, 0, 2, 255)
    ||| v4(198, 51, 100, 0) <= addr <= v4(198, 51, 100, 255)
    ||| v4(203, 0, 113, 0) <= addr <= v4(203, 0, 113, 255)
    // carrier-grade NAT, 100.64.0.0/10
    ||| v4(100, 64, 0, 0) <= addr <= v4(100, 127, 255, 255)
}

/// The IPv6 address is `::ffff:a.b.c.d`, an IPv4 address mapped into IPv6.
pub open spec fn is_ipv4_mapped(s: Seq<u16>) -> bool {
    s[0] == 0 && s[1] == 0 && s[2] == 0 && s[3] == 0 && s[4] == 0 && s[5] == 0xffff
}

/// The number of the IPv4 address that an IPv4-mapped address carries in
/// its last two segments.
pub open spec fn mapped_ipv4(s: Seq<u16>) -> int {
    s[6] as int * 65536 + s[7] as int
}

/// The IPv6 addresses no PDS may have.
pub open spec fn blocked_ipv6(s: Seq<u16>) -> bool {
    // loopback, ::1
    ||| (s[0] == 0 && s[1] == 0 && s[2] == 0 && s[3] == 0 && s[4] == 0 && s[5] == 0 && s[6] == 0
        && s[7] == 1)
    // unspecified, ::
    ||| (s[0] == 0 && s[1] == 0 && s[2] == 0 && s[3] == 0 && s[4] == 0 && s[5] == 0 && s[6] == 0
        && s[7] == 0)
    // unique local, fc00::/7
    ||| 0xfc00 <= s[0] <= 0xfdff
    // link-local, fe80::/10
    ||| 0xfe80 <= s[0] <= 0xfebf
    // an IPv4 address that is itself blocked
    ||| (is_ipv4_mapped(s) && blocked_ipv4(mapped_ipv4(s)))
}

/// The host name is one of the names of the local machine: `localhost`,
/// `localhost.localdomain`, or a name under `.localhost` or `.local`.
pub open spec fn localhost_name(host: Seq<char>) -> bool {
    host == "localhost"@ || host == "localhost.localdomain"@ || ".localhost"@.is_suffix_of(host)
        || ".local"@.is_suffix_of(host)
}

/// Whether an IPv4 address, given by its octets, is private or reserved.
pub fn is_private_ipv4(ip: &[u8; 4]) -> (r: bool)
    ensures
        r == blocked_ipv4(ipv4_number(ip@)),
{
    let a = ip[0];
    let b = ip[1];
    let c = ip[2];
    let d = ip[3];
    if a == 127 {
        return true;
    }
    if a == 10 {
        return true;
    }
    if a == 172 && (b >= 16 && b <= 31) {
        return true;
    }
    if a == 192 && b == 168 {
        return true;
    }
    if a == 169 && b == 254 {
        return true;
    }
    if a == 255 && b == 255 && c == 255 && d == 255 {
        return true;
    }
    if a == 0 && b == 0 && c == 0 && d == 0 {
        return true;
    }
    if (a == 192 && b == 0 && c == 2) || (a == 198 && b == 51 && c == 100) || (a == 203 && b == 0
        && c == 113) {
        return true;
    }
    if a == 100 && (b >= 64 && b <= 127) {
        return true;
    }
    false
}

/// Whether an IPv6 address, given by its segments, is private or reserved.
pub fn is_private_ipv6(ip: &[u16; 8]) -> (r: bool)
    ensures
        r == blocked_ipv6(ip@),
{
    let s0 = ip[0];
    let leading_zero = s0 == 0 && ip[1] == 0 && ip[2] == 0 && ip[3] == 0 && ip[4] == 0;
    if leading_zero && ip[5] == 0 && ip[6] == 0 && (ip[7] == 1 || ip[7] == 0) {
        return true;
    }
    assert((s0 & 0xfe00) == 0xfc00 <==> 0xfc00 <= s0 <= 0xfdff) by (bit_vector);
    if (s0 & 0xfe00) == 0xfc00 {
        return true;
    }
    assert((s0 & 0xffc0) == 0xfe80 <==> 0xfe80 <= s0 <= 0xfebf) by (bit_vector);
    if (s0 & 0xffc0) == 0xfe80 {
        return true;
    }
    if leading_zero && ip[5] == 0xffff {
        let hi = ip[6];
        let lo = ip[7];
        let v4: [u8; 4] = [(hi >> 8) as u8, (hi & 0xff) as u8, (lo >> 8) as u8, (lo & 0xff) as u8];
        assert(((hi >> 8) as u8) as int * 256 + ((hi & 0xff) as u8) as int == hi as int)
            by (bit_vector);
        assert(((lo >> 8) as u8) as int * 256 + ((lo & 0xff) as u8) as int == lo as int)
            by (bit_vector);
        return is_private_ipv4(&v4);
    }
    false
}

/// An address is blocked: `host` is an IP address no PDS may have.
pub open spec fn blocked_address(host: UrlHostView) -> bool {
    match host {
        UrlHostView::Ipv4(o) => blocked_ipv4(ipv4_number(o)),
        UrlHostView::Ipv6(s) => blocked_ipv6(s),
        UrlHostView::Domain(_) => false,
    }
}

/// Whether a host is an IP address that is private or reserved.
pub fn is_private_ip(host: &UrlHost) -> (r: bool)
    ensures
        r == blocked_address(host@),
{
    match host {
        UrlHost::Ipv4(o) => is_private_ipv4(o),
        UrlHost::Ipv6(s) => is_private_ipv6(s),
        UrlHost::Domain(_) => false,
    }
}

/// Whether `host`, a host name in lower case, names the local machine.
pub fn is_localhost_hostname(host: &str) -> (r: bool)
    ensures
        r == localhost_name(host@),
{
    let h = chars_of(host);
    let localhost = chars_of("localhost");
    let localdomain = chars_of("localhost.localdomain");
    let dot_localhost = chars_of(".localhost");
    let dot_local = chars_of(".local");
    chars_eq(&h, &localhost) || chars_eq(&h, &localdomain) || chars_end_with(&h, &dot_localhost)
        || chars_end_with(&h, &dot_local)
}

/// Why a URL is refused, or `None` where it is accepted.
///
/// `debug_build` says whether the gateway was built for development: only
/// then may a URL name the local machine, and only such a URL may then use
/// plain `http`.
pub open spec fn rejection(url: Option<UrlPartsView>, debug_build: bool) -> Option<Seq<char>> {
    match url {
        None => Some("Invalid PDS URL: not a URL"@),
        Some(u) => {
            let is_http = u.scheme == "http"@;
            let is_https = u.scheme == "https"@;
            if !is_http && !is_https {
                Some("Invalid PDS URL: scheme '"@ + u.scheme + "' not allowed"@)
            } else {
                match u.host {
                    None => Some("Invalid PDS URL: no host specified"@),
                    Some(UrlHostView::Ipv4(o)) => if blocked_ipv4(ipv4_number(o)) {
                        Some("Invalid PDS URL: private network not allowed"@)
                    } else if is_http {
                        Some("Invalid PDS URL: HTTPS required"@)
                    } else {
                        None
                    },
                    Some(UrlHostView::Ipv6(s)) => if blocked_ipv6(s) {
                        Some("Invalid PDS URL: private network not allowed"@)
                    } else if is_http {
                        Some("Invalid PDS URL: HTTPS required"@)
                    } else {
                        None
                    },
                    Some(UrlHostView::Domain(d)) => if localhost_name(ascii_lower(d)) {
                        if debug_build {
                            None
                        } else {
                            Some("Invalid PDS URL: localhost not allowed"@)
                        }
                    } else if is_http {
                        Some("Invalid PDS URL: HTTPS required"@)
                    } else {
                        None
                    },
                }
            }
        },
    }
}

/// A verdict as plain values: accepted, or refused with a `BadRequest` that
/// carries the reason.
pub open spec fn verdict_matches(r: Result<(), AppError>, reason: Option<Seq<char>>) -> bool {
    match r {
        Ok(()) => reason is None,
        Err(e) => e@.kind == ErrorKind::BadRequest && reason == Some(e@.detail),
    }
}

fn refuse(reason: &str) -> (r: Result<(), AppError>)
    ensures
        verdict_matches(r, Some(reason@)),
{
    Err(AppError::BadRequest(String::from_str(reason)))
}

/// Judges a URL that has been parsed (`None`: it did not parse).
pub fn check_url(url: &Option<UrlParts>, debug_build: bool) -> (r: Result<(), AppError>)
    ensures
        verdict_matches(r, rejection(parts_view(*url), debug_build)),
{
    let u = match url {
        None => {
            return refuse("Invalid PDS URL: not a URL");
        },
        Some(u) => u,
    };
    let is_http = str_eq(u.scheme.as_str(), "http");
    let is_https = str_eq(u.scheme.as_str(), "https");
    if !is_http && !is_https {
        let mut reason = String::from_str("Invalid PDS URL: scheme '");
        reason.append(u.scheme.as_str());
        reason.append("' not allowed");
        return Err(AppError::BadRequest(reason));
    }
    match &u.host {
        None => {
            return refuse("Invalid PDS URL: no host specified");
        },
        Some(UrlHost::Ipv4(o)) => {
            if is_private_ipv4(o) {
                return refuse("Invalid PDS URL: private network not allowed");
            }
        },
        Some(UrlHost::Ipv6(s)) => {
            if is_private_ipv6(s) {
                return refuse("Invalid PDS URL: private network not allowed");
            }
        },
        Some(UrlHost::Domain(d)) => {
            let lower = chars_to_ascii_lower(&chars_of(d.as_str()));
            let localhost = chars_of("localhost");
            let localdomain = chars_of("localhost.localdomain");
            let dot_localhost = chars_of(".localhost");
            let dot_local = chars_of(".local");
            if chars_eq(&lower, &localhost) || chars_eq(&lower, &localdomain) || chars_end_with(
                &lower,
                &dot_localhost,
            ) || chars_end_with(&lower, &dot_local) {
                if debug_build {
                    return Ok(());
                }
                return refuse("Invalid PDS URL: localhost not allowed");
            }
        },
    }
    if is_http {
        return refuse("Invalid PDS URL: HTTPS required");
    }
    Ok(())
}

/// Judges `url` by the rule of a build of the given kind.
pub fn validate_pds_url_for(url: &str, debug_build: bool) -> (r: Result<(), AppError>)
    ensures
        verdict_matches(r, rejection(url_parts(url@), debug_build)),
{
    let parsed = parse_url(url);
    check_url(&parsed, debug_build)
}

/// Judges `url` by the production rule: `https` only, and no name of the
/// local machine.
pub fn validate_pds_url(url: &str) -> (r: Result<(), AppError>)
    ensures
        verdict_matches(r, rejection(url_parts(url@), false)),
{
    validate_pds_url_for(url, false)
}

/// Which IPv4 addresses are blocked, octet by octet: `a.b.c.d` is blocked
/// if and only if it is in 127/8, 10/8, 172.16/12, 192.168/16, 169.254/16,
/// 100.64/10, one of the three documentation networks, the broadcast
/// address or the unspecified address. Every other address is public.
pub proof fn blocked_ipv4_by_octets(a: u8, b: u8, c: u8, d: u8)
    ensures
        blocked_ipv4(v4(a as int, b as int, c as int, d as int)) <==> {
            ||| a == 127
            ||| a == 10
            ||| (a == 172 && 16 <= b <= 31)
            ||| (a == 192 && b == 168)
            ||| (a == 169 && b == 254)
            ||| (a == 100 && 64 <= b <= 127)
            ||| (a == 192 && b == 0 && c == 2)
            ||| (a == 198 && b == 51 && c == 100)
            ||| (a == 203 && b == 0 && c == 113)
            ||| (a == 255 && b == 255 && c == 255 && d == 255)
            ||| (a == 0 && b == 0 && c == 0 && d == 0)
        },
{
}

/// An IPv4 address that is mapped into IPv6 is blocked there if and only
/// if it is blocked as an IPv4 address.
pub proof fn mapped_address_blocked_alike(s: Seq<u16>)
    requires
        s.len() == 8,
        is_ipv4_mapped(s),
    ensures
        blocked_ipv6(s) <==> blocked_ipv4(mapped_ipv4(s)),
{
}

/// A URL over `https` whose host is an IP address is accepted if and only
/// if the address is not blocked; over `http` it is never accepted. This
/// holds in every build.
pub proof fn address_accepted_unless_blocked(u: UrlPartsView, debug_build: bool)
    requires
        u.scheme == "https"@ || u.scheme == "http"@,
    ensures
        u.host matches Some(UrlHostView::Ipv4(o)) ==> (rejection(Some(u), debug_build) is None
            <==> u.scheme == "https"@ && !blocked_ipv4(ipv4_number(o))),
        u.host matches Some(UrlHostView::Ipv6(s)) ==> (rejection(Some(u), debug_build) is None
            <==> u.scheme == "https"@ && !blocked_ipv6(s)),
{
    reveal_strlit("https");
    reveal_strlit("http");
    assert("https"@.len() != "http"@.len());
}

} // verus!
