//! Who a request comes from.
//!
//! A client names its session in an `Authorization: Bearer` header or, if
//! it keeps cookies, in the `catbird_session` cookie; the header comes
//! first. For rate limiting a client is also known by its address, which a
//! reverse proxy hands on in `X-Forwarded-For` or `X-Real-IP`.

use crate::error::AppError;
use crate::http::{header_of, header_value, Header};
use crate::models::CatbirdSession;
use crate::text::{
    ascii_lower,
    chars_eq,
    chars_of,
    chars_start_with,
    chars_to_ascii_lower,
    find_char,
    find_from,
    slice_string,
    trim_bounds,
    trimmed,
    trimmed_slice,
};
use vstd::prelude::*;
use vstd::string::*;

verus! {

/// The status a request without a usable session is answered with.
pub const UNAUTHORIZED: u16 = 401;

/// The session identifier of an `Authorization` value: what follows
/// `Bearer `.
pub open spec fn bearer_of(value: Seq<char>) -> Option<Seq<char>> {
    if "Bearer "@.is_prefix_of(value) {
        Some(value.subrange("Bearer "@.len() as int, value.len() as int))
    } else {
        None
    }
}

/// The value of the cookie `name` in one piece of a `Cookie` header: the
/// piece, trimmed, is the name, `=` and the value.
pub open spec fn cookie_piece(piece: Seq<char>, name: Seq<char>) -> Option<Seq<char>> {
    let t = trimmed(piece);
    let eq = find_from(t, '=', 0);
    if eq < t.len() && t.subrange(0, eq) == name {
        Some(t.subrange(eq + 1, t.len() as int))
    } else {
        None
    }
}

/// The value of the first cookie `name` in `cookies` at or after `from`;
/// cookies are separated by `;`.
pub open spec fn cookie_from(cookies: Seq<char>, name: Seq<char>, from: int) -> Option<Seq<char>>
    decreases cookies.len() - from,
{
    if from < 0 || from > cookies.len() {
        None
    } else {
        let end = find_from(cookies, ';', from);
        match cookie_piece(cookies.subrange(from, end), name) {
            Some(v) => Some(v),
            None => if end >= cookies.len() {
                None
            } else {
                proof {
                    find_from_bounds(cookies, ';', from);
                }
                cookie_from(cookies, name, end + 1)
            },
        }
    }
}

/// The values of all `Cookie` headers at or after `from`, joined by `; `.
pub open spec fn cookies_from(headers: Seq<Header>, from: int, first: bool) -> Seq<char>
    decreases headers.len() - from,
{
    if from < 0 || from >= headers.len() {
        Seq::empty()
    } else if ascii_lower(headers[from].name@) == "cookie"@ {
        (if first {
            Seq::empty()
        } else {
            "; "@
        }) + headers[from].value@ + cookies_from(headers, from + 1, false)
    } else {
        cookies_from(headers, from + 1, first)
    }
}

/// The session a request names: the bearer token of its `Authorization`
/// header, else the `catbird_session` cookie.
pub open spec fn session_id_of(headers: Seq<Header>) -> Option<Seq<char>> {
    let bearer = match header_of(headers, "authorization"@) {
        Some(v) => bearer_of(v),
        None => None,
    };
    match bearer {
        Some(id) => Some(id),
        None => cookie_from(cookies_from(headers, 0, true), "catbird_session"@, 0),
    }
}

/// The address that an `X-Forwarded-For` value names as the client's: the
/// first hop.
pub open spec fn first_hop(value: Seq<char>) -> Seq<char> {
    trimmed(value.subrange(0, find_from(value, ',', 0)))
}

/// The first `c` at or after `from` is found at or after `from`.
pub proof fn find_from_bounds(s: Seq<char>, c: char, from: int)
    requires
        0 <= from <= s.len(),
    ensures
        from <= find_from(s, c, from) <= s.len(),
    decreases s.len() - from,
{
    if from < s.len() && s[from] != c {
        find_from_bounds(s, c, from + 1);
    }
}

/// All cookies of a request as one text.
pub fn joined_cookies(headers: &Vec<Header>) -> (r: String)
    ensures
        r@ == cookies_from(headers@, 0, true),
{
    let cookie = chars_of("cookie");
    let mut out = String::new();
    let mut first = true;
    let mut i: usize = 0;
    while i < headers.len()
        invariant
            i <= headers.len(),
            cookie@ == "cookie"@,
            cookies_from(headers@, 0, true) == out@ + cookies_from(headers@, i as int, first),
        decreases headers.len() - i,
    {
        let lower = chars_to_ascii_lower(&chars_of(headers[i].name.as_str()));
        if chars_eq(&lower, &cookie) {
            let ghost before = out@;
            let ghost was_first = first;
            if !first {
                out.append("; ");
            }
            out.append(headers[i].value.as_str());
            first = false;
            proof {
                let separator = if was_first {
                    Seq::<char>::empty()
                } else {
                    "; "@
                };
                let rest = cookies_from(headers@, i + 1, false);
                assert(out@ =~= before + separator + headers@[i as int].value@);
                assert(before + (separator + headers@[i as int].value@ + rest) =~= out@ + rest);
            }
        }
        i += 1;
    }
    assert(out@ + Seq::<char>::empty() =~= out@);
    out
}

/// The value of the cookie `name` among `cookies`.
pub fn cookie_value(cookies: &str, name: &str) -> (r: Option<String>)
    ensures
        r.deep_view() == cookie_from(cookies@, name@, 0),
{
    let v = chars_of(cookies);
    let wanted = chars_of(name);
    let mut from: usize = 0;
    loop
        invariant
            from <= v.len(),
            v@ == cookies@,
            wanted@ == name@,
            cookie_from(cookies@, name@, 0) == cookie_from(v@, name@, from as int),
        decreases v.len() - from,
    {
        let end = find_char(&v, ';', from);
        let (a, b) = trim_bounds(&v, from, end);
        let eq = find_char(&v, '=', a);
        proof {
            trimmed_slice(v@, from as int, end as int);
            let t = v@.subrange(a as int, b as int);
            find_within(v@, '=', a as int, b as int);
        }
        if eq < b {
            let key = slice_chars(&v, a, eq);
            if chars_eq(&key, &wanted) {
                proof {
                    let t = v@.subrange(a as int, b as int);
                    assert(t.subrange(0, eq - a) =~= v@.subrange(a as int, eq as int));
                    assert(t.subrange(eq - a + 1, t.len() as int) =~= v@.subrange(
                        eq + 1,
                        b as int,
                    ));
                }
                return Some(slice_string(&v, eq + 1, b));
            }
            proof {
                let t = v@.subrange(a as int, b as int);
                assert(t.subrange(0, eq - a) =~= v@.subrange(a as int, eq as int));
            }
        }
        if end >= v.len() {
            return None;
        }
        from = end + 1;
    }
}

/// Where the first `c` of `s[a..b]` is, seen from `s` and from the slice.
proof fn find_within(s: Seq<char>, c: char, a: int, b: int)
    requires
        0 <= a <= b <= s.len(),
    ensures
        ({
            let t = s.subrange(a, b);
            let in_s = find_from(s, c, a);
            let in_t = find_from(t, c, 0);
            if in_s < b {
                in_t == in_s - a
            } else {
                in_t == t.len()
            }
        }),
{
    find_within_from(s, c, a, b, a);
}

proof fn find_within_from(s: Seq<char>, c: char, a: int, b: int, from: int)
    requires
        0 <= a <= from <= b <= s.len(),
    ensures
        ({
            let t = s.subrange(a, b);
            let in_s = find_from(s, c, from);
            let in_t = find_from(t, c, from - a);
            if in_s < b {
                in_t == in_s - a
            } else {
                in_t == t.len()
            }
        }),
    decreases b - from,
{
    let t = s.subrange(a, b);
    if from < b {
        assert(t[from - a] == s[from]);
        if s[from] != c {
            find_within_from(s, c, a, b, from + 1);
        }
    } else {
        find_from_bounds(s, c, from);
    }
}

fn slice_chars(v: &Vec<char>, from: usize, to: usize) -> (r: Vec<char>)
    requires
        from <= to <= v.len(),
    ensures
        r@ == v@.subrange(from as int, to as int),
{
    let mut out: Vec<char> = Vec::new();
    let mut i: usize = from;
    while i < to
        invariant
            from <= i <= to <= v.len(),
            out@ == v@.subrange(from as int, i as int),
        decreases to - i,
    {
        out.push(v[i]);
        assert(v@.subrange(from as int, i + 1) == v@.subrange(from as int, i as int).push(
            v@[i as int],
        ));
        i += 1;
    }
    out
}

/// The session identifier that an `Authorization` value carries.
pub fn bearer_token(value: &str) -> (r: Option<String>)
    ensures
        r.deep_view() == bearer_of(value@),
{
    let v = chars_of(value);
    let prefix = chars_of("Bearer ");
    if chars_start_with(&v, &prefix) {
        Some(slice_string(&v, prefix.len(), v.len()))
    } else {
        None
    }
}

/// The session a request names, if it names one.
pub fn extract_session_id(headers: &Vec<Header>) -> (r: Option<String>)
    ensures
        r.deep_view() == session_id_of(headers@),
{
    let bearer = match header_value(headers, "authorization") {
        Some(v) => bearer_token(v.as_str()),
        None => None,
    };
    match bearer {
        Some(id) => Some(id),
        None => {
            let cookies = joined_cookies(headers);
            cookie_value(cookies.as_str(), "catbird_session")
        },
    }
}

/// The session a request names, for rate limiting. It is the same as the
/// one it is authenticated by.
pub fn extract_session_for_rate_limit(headers: &Vec<Header>) -> (r: Option<String>)
    ensures
        r.deep_view() == session_id_of(headers@),
{
    extract_session_id(headers)
}

/// The address that an `X-Forwarded-For` value names as the client's.
pub fn forwarded_client(value: &str) -> (r: String)
    ensures
        r@ == first_hop(value@),
{
    let v = chars_of(value);
    let end = find_char(&v, ',', 0);
    let (a, b) = trim_bounds(&v, 0, end);
    proof {
        trimmed_slice(v@, 0, end as int);
    }
    slice_string(&v, a, b)
}

/// The texts in which a request's headers may name the client's address,
/// best first: the first hop of `X-Forwarded-For`, then `X-Real-IP`.
pub open spec fn address_candidates(headers: Seq<Header>) -> Seq<Seq<char>> {
    (match header_of(headers, "x-forwarded-for"@) {
        Some(v) => seq![first_hop(v)],
        None => Seq::empty(),
    }) + (match header_of(headers, "x-real-ip"@) {
        Some(v) => seq![trimmed(v)],
        None => Seq::empty(),
    })
}

/// The texts of a list.
pub open spec fn texts(list: Seq<String>) -> Seq<Seq<char>> {
    list.map_values(|s: String| s@)
}

/// The texts in which a request's headers may name the client's address.
/// Whether one of them is an address is for the caller to find out.
pub fn client_address_candidates(headers: &Vec<Header>) -> (r: Vec<String>)
    ensures
        texts(r@) == address_candidates(headers@),
{
    let mut out: Vec<String> = Vec::new();
    match header_value(headers, "x-forwarded-for") {
        Some(v) => {
            out.push(forwarded_client(v.as_str()));
        },
        None => {},
    }
    let ghost front = texts(out@);
    match header_value(headers, "x-real-ip") {
        Some(v) => {
            out.push(crate::text::trim(v.as_str()));
        },
        None => {},
    }
    assert(texts(out@) =~= address_candidates(headers@));
    out
}

/// The client's address: the first candidate that is an address, else the
/// address of the peer.
pub open spec fn client_ip_of(parsed: Seq<Option<String>>, peer: Option<String>, from: int) -> Option<
    Seq<char>,
>
    decreases parsed.len() - from,
{
    if from < 0 || from >= parsed.len() {
        peer.deep_view()
    } else {
        match parsed[from] {
            Some(ip) => Some(ip@),
            None => client_ip_of(parsed, peer, from + 1),
        }
    }
}

/// Picks the client's address. `parsed` holds, for each candidate of
/// [`client_address_candidates`] in order, the address it is (in its
/// canonical form), or `None` where it is none; `peer` is the address the
/// connection comes from.
pub fn extract_client_ip(parsed: &Vec<Option<String>>, peer: &Option<String>) -> (r: Option<String>)
    ensures
        r.deep_view() == client_ip_of(parsed@, *peer, 0),
{
    let mut i: usize = 0;
    while i < parsed.len()
        invariant
            i <= parsed.len(),
            client_ip_of(parsed@, *peer, 0) == client_ip_of(parsed@, *peer, i as int),
        decreases parsed.len() - i,
    {
        match &parsed[i] {
            Some(ip) => {
                return Some(ip.clone());
            },
            None => {},
        }
        i += 1;
    }
    match peer {
        Some(p) => Some(p.clone()),
        None => None,
    }
}

/// What the authentication of a request comes to: the session, or 401
/// whatever went wrong.
pub fn auth_middleware(resolved: Result<CatbirdSession, AppError>) -> (r: Result<CatbirdSession, u16>)
    ensures
        match resolved {
            Ok(session) => r == Ok::<CatbirdSession, u16>(session),
            Err(_) => r == Err::<CatbirdSession, u16>(UNAUTHORIZED),
        },
{
    match resolved {
        Ok(session) => Ok(session),
        Err(_) => Err(UNAUTHORIZED),
    }
}

/// What the authentication of a request that need not be authenticated
/// comes to: the session if there is one, and never a failure.
pub fn optional_auth_middleware(resolved: Option<Result<CatbirdSession, AppError>>) -> (r: Option<
    CatbirdSession,
>)
    ensures
        match resolved {
            Some(Ok(session)) => r == Some(session),
            _ => r is None,
        },
{
    match resolved {
        Some(Ok(session)) => Some(session),
        _ => None,
    }
}

} // verus!
