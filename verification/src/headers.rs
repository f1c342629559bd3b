//! Which headers cross the gateway.
//!
//! Towards a PDS, the client's headers are forwarded except those that
//! belong to one hop and those the gateway sets itself. Back towards the
//! client, only a handful of headers that describe the body are copied.
//!
//! Header names are compared with ASCII letter case set aside. A list of
//! headers for a request holds each name once: setting a header replaces
//! what was there under its name.

use crate::http::{header_pairs, Header};
use crate::text::{ascii_lower, chars_eq, chars_of, chars_to_ascii_lower};
use vstd::prelude::*;
use vstd::string::*;

verus! {

/// Headers as pairs of name and value.
pub type Pairs = Seq<(Seq<char>, Seq<char>)>;

/// The names (in lower case) of the headers of a client that are never
/// forwarded: the hop-by-hop headers, `host`, `content-length`, and the
/// two headers by which the gateway authenticates.
pub open spec fn is_stripped(name: Seq<char>) -> bool {
    name == "host"@ || name == "connection"@ || name == "keep-alive"@ || name
        == "transfer-encoding"@ || name == "te"@ || name == "trailer"@ || name == "upgrade"@
        || name == "proxy-authorization"@ || name == "proxy-connection"@ || name
        == "authorization"@ || name == "dpop"@ || name == "content-length"@
}

/// The names (in lower case) of the headers of an upstream response that
/// are copied to the client.
pub open spec fn is_relayed(name: Seq<char>) -> bool {
    name == "content-type"@ || name == "content-length"@ || name == "cache-control"@ || name
        == "etag"@ || name == "last-modified"@
}

/// Some header in `headers` is named `name` (given in lower case).
pub open spec fn has_named(headers: Pairs, name: Seq<char>) -> bool {
    exists|i: int| 0 <= i < headers.len() && ascii_lower(#[trigger] headers[i].0) == name
}

/// `headers` without those named `name` (given in lower case).
pub open spec fn drop_named(headers: Pairs, name: Seq<char>) -> Pairs
    decreases headers.len(),
{
    if headers.len() == 0 {
        headers
    } else {
        let rest = drop_named(headers.drop_last(), name);
        if ascii_lower(headers.last().0) == name {
            rest
        } else {
            rest.push(headers.last())
        }
    }
}

/// `headers` with `header` set: what was there under its name is gone, and
/// it stands at the end.
pub open spec fn with_header(headers: Pairs, header: (Seq<char>, Seq<char>)) -> Pairs {
    drop_named(headers, ascii_lower(header.0)).push(header)
}

/// `request` after one header of the client was looked at: a stripped
/// header is passed over, and so is a `content-type` where the request has
/// one already; any other is set.
pub open spec fn forward_one(request: Pairs, header: (Seq<char>, Seq<char>)) -> Pairs {
    let name = ascii_lower(header.0);
    if is_stripped(name) {
        request
    } else if name == "content-type"@ && has_named(request, name) {
        request
    } else {
        with_header(request, header)
    }
}

/// `request` after the headers of the client were looked at in order.
pub open spec fn forwarded(request: Pairs, client: Pairs) -> Pairs
    decreases client.len(),
{
    if client.len() == 0 {
        request
    } else {
        forward_one(forwarded(request, client.drop_last()), client.last())
    }
}

/// Those of `headers` that are copied to the client, in order.
pub open spec fn relayed(headers: Pairs) -> Pairs
    decreases headers.len(),
{
    if headers.len() == 0 {
        headers
    } else {
        let rest = relayed(headers.drop_last());
        if is_relayed(ascii_lower(headers.last().0)) {
            rest.push(headers.last())
        } else {
            rest
        }
    }
}

fn name_is(lower: &Vec<char>, name: &str) -> (r: bool)
    ensures
        r == (lower@ == name@),
{
    let n = chars_of(name);
    chars_eq(lower, &n)
}

/// Whether a header of this name (in lower case) is kept back from the
/// upstream request.
pub fn stripped(lower: &Vec<char>) -> (r: bool)
    ensures
        r == is_stripped(lower@),
{
    name_is(lower, "host") || name_is(lower, "connection") || name_is(lower, "keep-alive")
        || name_is(lower, "transfer-encoding") || name_is(lower, "te") || name_is(lower, "trailer")
        || name_is(lower, "upgrade") || name_is(lower, "proxy-authorization") || name_is(
        lower,
        "proxy-connection",
    ) || name_is(lower, "authorization") || name_is(lower, "dpop") || name_is(
        lower,
        "content-length",
    )
}

/// Whether a header of this name (in lower case) is copied to the client.
pub fn relayable(lower: &Vec<char>) -> (r: bool)
    ensures
        r == is_relayed(lower@),
{
    name_is(lower, "content-type") || name_is(lower, "content-length") || name_is(
        lower,
        "cache-control",
    ) || name_is(lower, "etag") || name_is(lower, "last-modified")
}

fn lower_name(header: &Header) -> (r: Vec<char>)
    ensures
        r@ == ascii_lower(header.name@),
{
    chars_to_ascii_lower(&chars_of(header.name.as_str()))
}

fn copy_header(header: &Header) -> (r: Header)
    ensures
        r == *header,
{
    Header { name: header.name.clone(), value: header.value.clone() }
}

proof fn pairs_take(headers: Seq<Header>, i: int)
    requires
        0 <= i < headers.len(),
    ensures
        header_pairs(headers).take(i + 1).drop_last() == header_pairs(headers).take(i),
        header_pairs(headers).take(i + 1).last() == (headers[i].name@, headers[i].value@),
        header_pairs(headers.take(i + 1)) == header_pairs(headers).take(i + 1),
        header_pairs(headers.take(i)) == header_pairs(headers).take(i),
{
    assert(header_pairs(headers).take(i + 1).drop_last() =~= header_pairs(headers).take(i));
    assert(header_pairs(headers.take(i + 1)) =~= header_pairs(headers).take(i + 1));
    assert(header_pairs(headers.take(i)) =~= header_pairs(headers).take(i));
}

/// Whether some header is named `name` (given in lower case).
pub fn has_header(headers: &Vec<Header>, name: &Vec<char>) -> (r: bool)
    ensures
        r == has_named(header_pairs(headers@), name@),
{
    let mut i: usize = 0;
    while i < headers.len()
        invariant
            i <= headers.len(),
            forall|j: int|
                0 <= j < i ==> ascii_lower(#[trigger] header_pairs(headers@)[j].0) != name@,
        decreases headers.len() - i,
    {
        let lower = lower_name(&headers[i]);
        if chars_eq(&lower, name) {
            assert(ascii_lower(header_pairs(headers@)[i as int].0) == name@);
            return true;
        }
        i += 1;
    }
    false
}

/// Sets a header: what was there under its name is replaced.
pub fn set_header(headers: Vec<Header>, header: Header) -> (r: Vec<Header>)
    ensures
        header_pairs(r@) == with_header(header_pairs(headers@), (header.name@, header.value@)),
{
    let name = lower_name(&header);
    let mut out: Vec<Header> = Vec::new();
    let mut i: usize = 0;
    while i < headers.len()
        invariant
            i <= headers.len(),
            name@ == ascii_lower(header.name@),
            header_pairs(out@) == drop_named(header_pairs(headers@).take(i as int), name@),
        decreases headers.len() - i,
    {
        let lower = lower_name(&headers[i]);
        let ghost before = header_pairs(out@);
        proof {
            pairs_take(headers@, i as int);
        }
        if !chars_eq(&lower, &name) {
            out.push(copy_header(&headers[i]));
            assert(header_pairs(out@) =~= before.push((headers[i as int].name@, headers[i as int].value@)));
        }
        i += 1;
    }
    assert(header_pairs(headers@).take(headers.len() as int) == header_pairs(headers@));
    let ghost dropped = header_pairs(out@);
    let ghost pair = (header.name@, header.value@);
    out.push(header);
    assert(header_pairs(out@) =~= dropped.push(pair));
    out
}

/// Adds to `request` the headers of the client that may be forwarded.
pub fn forward_headers(request: Vec<Header>, client: &Vec<Header>) -> (r: Vec<Header>)
    ensures
        header_pairs(r@) == forwarded(header_pairs(request@), header_pairs(client@)),
{
    let mut out = request;
    let content_type = chars_of("content-type");
    let mut i: usize = 0;
    while i < client.len()
        invariant
            i <= client.len(),
            content_type@ == "content-type"@,
            header_pairs(out@) == forwarded(
                header_pairs(request@),
                header_pairs(client@).take(i as int),
            ),
        decreases client.len() - i,
    {
        let lower = lower_name(&client[i]);
        proof {
            pairs_take(client@, i as int);
        }
        if stripped(&lower) {
        } else if chars_eq(&lower, &content_type) && has_header(&out, &content_type) {
        } else {
            out = set_header(out, copy_header(&client[i]));
        }
        i += 1;
    }
    assert(header_pairs(client@).take(client.len() as int) == header_pairs(client@));
    out
}

/// The headers of an upstream response that are copied to the client.
pub fn filter_response_headers(headers: &Vec<Header>) -> (r: Vec<Header>)
    ensures
        header_pairs(r@) == relayed(header_pairs(headers@)),
{
    let mut out: Vec<Header> = Vec::new();
    let mut i: usize = 0;
    while i < headers.len()
        invariant
            i <= headers.len(),
            header_pairs(out@) == relayed(header_pairs(headers@).take(i as int)),
        decreases headers.len() - i,
    {
        let lower = lower_name(&headers[i]);
        let ghost before = header_pairs(out@);
        proof {
            pairs_take(headers@, i as int);
        }
        if relayable(&lower) {
            out.push(copy_header(&headers[i]));
            assert(header_pairs(out@) =~= before.push((headers[i as int].name@, headers[i as int].value@)));
        }
        i += 1;
    }
    assert(header_pairs(headers@).take(headers.len() as int) == header_pairs(headers@));
    out
}

/// Nothing that was forwarded from the client is a stripped header: a
/// stripped header in the request was in it before the client's headers
/// were looked at.
pub proof fn forwarded_keeps_stripped_out(request: Pairs, client: Pairs, name: Seq<char>)
    requires
        is_stripped(name),
    ensures
        has_named(forwarded(request, client), name) ==> has_named(request, name),
    decreases client.len(),
{
    if client.len() > 0 {
        let before = forwarded(request, client.drop_last());
        forwarded_keeps_stripped_out(request, client.drop_last(), name);
        let header = client.last();
        let lower = ascii_lower(header.0);
        if !is_stripped(lower) && !(lower == "content-type"@ && has_named(before, lower)) {
            let after = with_header(before, header);
            if has_named(after, name) {
                let i = choose|i: int| 0 <= i < after.len() && ascii_lower(#[trigger] after[i].0) == name;
                assert(i < after.len() - 1);
                drop_named_is_part(before, lower, i);
            }
        }
    }
}

/// Every header of `drop_named(headers, name)` is a header of `headers`.
pub proof fn drop_named_is_part(headers: Pairs, name: Seq<char>, i: int)
    requires
        0 <= i < drop_named(headers, name).len(),
    ensures
        has_named(headers, ascii_lower(drop_named(headers, name)[i].0)),
        ascii_lower(drop_named(headers, name)[i].0) != name,
    decreases headers.len(),
{
    if headers.len() > 0 {
        let rest = drop_named(headers.drop_last(), name);
        if ascii_lower(headers.last().0) == name {
            drop_named_is_part(headers.drop_last(), name, i);
            let k = choose|k: int|
                0 <= k < headers.drop_last().len() && ascii_lower(
                    #[trigger] headers.drop_last()[k].0,
                ) == ascii_lower(rest[i].0);
            assert(headers[k] == headers.drop_last()[k]);
        } else if i < rest.len() {
            drop_named_is_part(headers.drop_last(), name, i);
            let k = choose|k: int|
                0 <= k < headers.drop_last().len() && ascii_lower(
                    #[trigger] headers.drop_last()[k].0,
                ) == ascii_lower(rest[i].0);
            assert(headers[k] == headers.drop_last()[k]);
        } else {
            assert(drop_named(headers, name)[i] == headers.last());
            assert(headers[headers.len() - 1] == headers.last());
        }
    }
}

/// Those of `headers` that are named `name` (given in lower case), in
/// order.
pub open spec fn named(headers: Pairs, name: Seq<char>) -> Pairs
    decreases headers.len(),
{
    if headers.len() == 0 {
        headers
    } else {
        let rest = named(headers.drop_last(), name);
        if ascii_lower(headers.last().0) == name {
            rest.push(headers.last())
        } else {
            rest
        }
    }
}

proof fn named_after_drop(headers: Pairs, dropped: Seq<char>, name: Seq<char>)
    requires
        dropped != name,
    ensures
        named(drop_named(headers, dropped), name) == named(headers, name),
    decreases headers.len(),
{
    if headers.len() > 0 {
        named_after_drop(headers.drop_last(), dropped, name);
        let rest = drop_named(headers.drop_last(), dropped);
        if ascii_lower(headers.last().0) != dropped {
            assert(rest.push(headers.last()).drop_last() =~= rest);
        }
    }
}

/// Setting a header leaves the headers of every other name as they are.
pub proof fn set_keeps_others(headers: Pairs, header: (Seq<char>, Seq<char>), name: Seq<char>)
    requires
        ascii_lower(header.0) != name,
    ensures
        named(with_header(headers, header), name) == named(headers, name),
{
    let rest = drop_named(headers, ascii_lower(header.0));
    named_after_drop(headers, ascii_lower(header.0), name);
    assert(rest.push(header).drop_last() =~= rest);
}

/// What goes upstream under a stripped name is what the gateway has set
/// under it: the headers of the client add nothing to it and replace
/// nothing of it.
pub proof fn gateway_headers_stay(request: Pairs, client: Pairs, name: Seq<char>)
    requires
        is_stripped(name),
    ensures
        named(forwarded(request, client), name) == named(request, name),
    decreases client.len(),
{
    if client.len() > 0 {
        gateway_headers_stay(request, client.drop_last(), name);
        let before = forwarded(request, client.drop_last());
        let header = client.last();
        let lower = ascii_lower(header.0);
        if !is_stripped(lower) && !(lower == "content-type"@ && has_named(before, lower)) {
            set_keeps_others(before, header, name);
        }
    }
}

} // verus!
