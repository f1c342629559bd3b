//! The authenticated proxy.
//!
//! A request of the client is forwarded to the PDS its session is bound to,
//! under the session's access token and a DPoP proof. The first response is
//! always read into memory, under the size limit, so that a `use_dpop_nonce`
//! challenge can be seen; a challenge is answered once, with the same
//! request and a proof that carries the nonce. No third request is made.
//!
//! The proxy is a state machine: it hands out a request to send or a body
//! to read, and is resumed with what came back.

use crate::codec::copy_bytes;
use crate::error::{AppError, ErrorKind};
use crate::headers::{
    filter_response_headers,
    forward_headers,
    forwarded,
    gateway_headers_stay,
    named,
    relayed,
    set_header,
    set_keeps_others,
    with_header,
    Pairs,
};
use crate::http::{header_of, header_pairs, header_value, Header};
use crate::json::{json_text_member, text_member};
use crate::jwt::{dpop_proof, generate_dpop_proof, ProofAudience};
use crate::limits::{
    announces_over,
    delivery,
    delivery_of,
    too_large,
    Delivery,
    MAX_RESPONSE_SIZE,
};
use crate::models::{CatbirdSession, DPoPKeyPair, DPoPKeyPairView, SessionView};
use crate::ssrf::{rejection, validate_pds_url_for};
use crate::stamp::Stamp;
use crate::text::{ascii_lower, opt_text, str_eq};
use crate::weburl::url_parts;
use vstd::prelude::*;
use vstd::string::*;

verus! {

/// A request to an upstream server.
#[derive(Debug)]
pub struct UpstreamRequest {
    pub method: String,
    pub url: String,
    /// The headers to send; no name occurs twice.
    pub headers: Vec<Header>,
    pub body: Option<Vec<u8>>,
}

/// [`UpstreamRequest`] as plain values.
pub struct UpstreamRequestView {
    pub method: Seq<char>,
    pub url: Seq<char>,
    pub headers: Pairs,
    pub body: Option<Seq<u8>>,
}

/// An optional body as plain values.
pub open spec fn body_view(body: Option<Vec<u8>>) -> Option<Seq<u8>> {
    match body {
        Some(b) => Some(b@),
        None => None,
    }
}

impl View for UpstreamRequest {
    type V = UpstreamRequestView;

    open spec fn view(&self) -> UpstreamRequestView {
        UpstreamRequestView {
            method: self.method@,
            url: self.url@,
            headers: header_pairs(self.headers@),
            body: body_view(self.body),
        }
    }
}

/// What the proxy answers with: a response held in memory, or the head of
/// one whose body is passed through as it arrives. Either carries only the
/// headers that are relayed to the client.
#[derive(Debug)]
pub enum ProxyResponse {
    Buffered { status: u16, headers: Vec<Header>, body: Vec<u8> },
    Streaming { status: u16, headers: Vec<Header> },
}

impl ProxyResponse {
    /// The status of the response.
    pub fn status(&self) -> (r: u16)
        ensures
            r == match self {
                ProxyResponse::Buffered { status, .. } => *status,
                ProxyResponse::Streaming { status, .. } => *status,
            },
    {
        match self {
            ProxyResponse::Buffered { status, .. } => *status,
            ProxyResponse::Streaming { status, .. } => *status,
        }
    }

    /// The headers of the response.
    pub fn headers(&self) -> (r: &Vec<Header>)
        ensures
            *r == match self {
                ProxyResponse::Buffered { headers, .. } => *headers,
                ProxyResponse::Streaming { headers, .. } => *headers,
            },
    {
        match self {
            ProxyResponse::Buffered { headers, .. } => headers,
            ProxyResponse::Streaming { headers, .. } => headers,
        }
    }
}

/// What a proxied request consists of and is made with.
#[derive(Debug)]
pub struct ProxyContext {
    pub session: CatbirdSession,
    /// The session's DPoP key pair, if the store holds one.
    pub key: Option<DPoPKeyPair>,
    pub method: String,
    pub url: String,
    pub body: Option<Vec<u8>>,
    pub content_type: Option<String>,
    pub client_headers: Vec<Header>,
}

/// A proxied request under way: what it waits for.
#[derive(Debug)]
pub enum Proxy {
    /// The head of the first response.
    FirstHead { ctx: ProxyContext },
    /// The body of the first response.
    FirstBody { ctx: ProxyContext, status: u16, headers: Vec<Header> },
    /// The head of the response to the second and last request.
    RetryHead,
    /// The body of the response to the second request.
    RetryBody { status: u16, headers: Vec<Header> },
    /// The head of the response of a server that is called directly.
    DirectHead,
    /// The body of the response of a server that is called directly.
    DirectBody { status: u16, headers: Vec<Header> },
}

/// What came back from upstream.
#[derive(Debug)]
pub enum ProxyEvent {
    /// The status line and the headers of a response.
    Head { status: u16, headers: Vec<Header> },
    /// The whole body, read under the limit that was asked for.
    Body(Vec<u8>),
    /// The request or the reading of the body failed.
    Failed(AppError),
}

/// What the proxy asks for next.
#[derive(Debug)]
pub enum ProxyStep {
    /// Send the request and come back with the head of the response.
    Send { next: Proxy, request: UpstreamRequest },
    /// Read the body of the response, refusing it once it exceeds `limit`
    /// bytes, and come back with it.
    Read { next: Proxy, limit: usize },
    /// Nothing more: this is the outcome.
    Done(Result<ProxyResponse, AppError>),
}

/// The URL of a request for `path` on `base`, with the query string as the
/// client wrote it.
pub open spec fn proxy_url_of(base: Seq<char>, path: Seq<char>, query: Option<Seq<char>>) -> Seq<
    char,
> {
    match query {
        Some(q) => base + path + "?"@ + q,
        None => base + path,
    }
}

/// The headers by which the gateway authenticates a request: with a DPoP
/// bound session, the access token under the `DPoP` scheme and a proof for
/// this request; otherwise the access token as a bearer token.
pub open spec fn auth_headers_of(
    session: SessionView,
    key: Option<DPoPKeyPairView>,
    method: Seq<char>,
    url: Seq<char>,
    nonce: Option<Seq<char>>,
    jti: Seq<char>,
    now: i64,
) -> Result<Pairs, ErrorKind> {
    if session.dpop_jkt is Some {
        match key {
            None => Err(ErrorKind::Internal),
            Some(k) => match dpop_proof(
                ProofAudience::ResourceServer,
                k,
                method,
                url,
                session.access_token,
                nonce,
                jti,
                now,
            ) {
                Err(kind) => Err(kind),
                Ok(proof) => Ok(
                    seq![
                        ("authorization"@, "DPoP "@ + session.access_token),
                        ("DPoP"@, proof),
                    ],
                ),
            },
        }
    } else {
        Ok(seq![("authorization"@, "Bearer "@ + session.access_token)])
    }
}

/// The key pair of a context as plain values.
pub open spec fn key_view(key: Option<DPoPKeyPair>) -> Option<DPoPKeyPairView> {
    match key {
        Some(k) => Some(k@),
        None => None,
    }
}

/// The headers of a request: those `given`, the content type if there is
/// one, and what may be forwarded of the client's headers.
pub open spec fn request_headers(
    given: Pairs,
    content_type: Option<Seq<char>>,
    client_headers: Pairs,
) -> Pairs {
    forwarded(
        match content_type {
            Some(ct) => with_header(given, ("content-type"@, ct)),
            None => given,
        },
        client_headers,
    )
}

/// The request of one attempt: the method, URL and body of the context
/// under the gateway's authentication.
pub open spec fn attempt_of(
    ctx: ProxyContext,
    nonce: Option<Seq<char>>,
    jti: Seq<char>,
    now: i64,
) -> Result<UpstreamRequestView, ErrorKind> {
    match auth_headers_of(ctx.session@, key_view(ctx.key), ctx.method@, ctx.url@, nonce, jti, now) {
        Err(kind) => Err(kind),
        Ok(auth) => Ok(
            UpstreamRequestView {
                method: ctx.method@,
                url: ctx.url@,
                headers: request_headers(
                    auth,
                    ctx.content_type.deep_view(),
                    header_pairs(ctx.client_headers@),
                ),
                body: body_view(ctx.body),
            },
        ),
    }
}

/// The nonce a first response asks the request to be repeated with,
/// given the `error` member of its body: the value of its `DPoP-Nonce`
/// header, where its status is 401 and the error is `use_dpop_nonce`.
pub open spec fn nonce_wanted(status: u16, headers: Seq<Header>, error: Option<Seq<char>>) -> Option<
    Seq<char>,
> {
    if status == 401 && error == Some("use_dpop_nonce"@) {
        header_of(headers, "dpop-nonce"@)
    } else {
        None
    }
}

/// The nonce a first response asks the request to be repeated with: the
/// value of its `DPoP-Nonce` header, where its status is 401 and its body
/// is a JSON object whose `error` is `use_dpop_nonce`.
pub open spec fn nonce_demand(status: u16, headers: Seq<Header>, body: Seq<u8>) -> Option<
    Seq<char>,
> {
    nonce_wanted(status, headers, json_text_member(body, "error"@))
}

/// How many requests a proxy may still send.
pub open spec fn sends_left(m: Proxy) -> nat {
    match m {
        Proxy::FirstHead { .. } => 1,
        Proxy::FirstBody { .. } => 1,
        _ => 0,
    }
}

/// How many steps a proxy may still ask for.
pub open spec fn steps_left(m: Proxy) -> nat {
    match m {
        Proxy::FirstHead { .. } => 4,
        Proxy::FirstBody { .. } => 3,
        Proxy::RetryHead => 2,
        Proxy::RetryBody { .. } => 1,
        Proxy::DirectHead => 2,
        Proxy::DirectBody { .. } => 1,
    }
}

/// The step ends the request with an error of the given kind.
pub open spec fn ends_with(step: ProxyStep, kind: ErrorKind) -> bool {
    step matches ProxyStep::Done(Err(e)) && e@.kind == kind
}

/// The step ends the request with a response held in memory.
pub open spec fn ends_buffered(step: ProxyStep, status: u16, headers: Seq<Header>, body: Seq<u8>) -> bool {
    step matches ProxyStep::Done(Ok(ProxyResponse::Buffered { status: s, headers: h, body: b }))
        && s == status && header_pairs(h@) == relayed(header_pairs(headers)) && b@ == body
}

/// The step ends the request with a response that is passed through.
pub open spec fn ends_streaming(step: ProxyStep, status: u16, headers: Seq<Header>) -> bool {
    step matches ProxyStep::Done(Ok(ProxyResponse::Streaming { status: s, headers: h })) && s
        == status && header_pairs(h@) == relayed(header_pairs(headers))
}

/// `step` is the first step of proxying a request to `url` on behalf of
/// `ctx.session`, whose PDS is `pds_url`.
pub open spec fn proxy_begun(ctx: ProxyContext, debug_build: bool, stamp: Stamp, step: ProxyStep) -> bool {
    if rejection(url_parts(ctx.session.pds_url@), debug_build) is Some {
        ends_with(step, ErrorKind::BadRequest)
    } else {
        match attempt_of(ctx, None, stamp.jti@, stamp.now) {
            Err(kind) => ends_with(step, kind),
            Ok(request) => step matches ProxyStep::Send { next: Proxy::FirstHead { ctx: c }, request: r }
                && c == ctx && r@ == request,
        }
    }
}

/// `step` is the step a proxy in state `m` takes on `event`.
pub open spec fn proxy_advanced(m: Proxy, event: ProxyEvent, stamp: Stamp, step: ProxyStep) -> bool {
    match event {
        ProxyEvent::Failed(error) => step matches ProxyStep::Done(Err(e)) && e == error,
        ProxyEvent::Head { status, headers } => match m {
            Proxy::FirstHead { ctx } => if announces_over(headers@, MAX_RESPONSE_SIZE as nat) {
                ends_with(step, ErrorKind::ResponseTooLarge)
            } else {
                step matches ProxyStep::Read {
                    next: Proxy::FirstBody { ctx: c, status: s, headers: h },
                    limit,
                } && c == ctx && s == status && h == headers && limit == MAX_RESPONSE_SIZE
            },
            Proxy::RetryHead => match delivery_of(headers@) {
                Delivery::Refuse => ends_with(step, ErrorKind::ResponseTooLarge),
                Delivery::Stream => ends_streaming(step, status, headers@),
                Delivery::Buffer => step matches ProxyStep::Read {
                    next: Proxy::RetryBody { status: s, headers: h },
                    limit,
                } && s == status && h == headers && limit == MAX_RESPONSE_SIZE,
            },
            Proxy::DirectHead => if announces_over(headers@, MAX_RESPONSE_SIZE as nat) {
                ends_with(step, ErrorKind::ResponseTooLarge)
            } else {
                step matches ProxyStep::Read {
                    next: Proxy::DirectBody { status: s, headers: h },
                    limit,
                } && s == status && h == headers && limit == MAX_RESPONSE_SIZE
            },
            _ => ends_with(step, ErrorKind::Internal),
        },
        ProxyEvent::Body(body) => match m {
            Proxy::FirstBody { ctx, status, headers } => match nonce_demand(
                status,
                headers@,
                body@,
            ) {
                Some(nonce) => match attempt_of(ctx, Some(nonce), stamp.jti@, stamp.now) {
                    Err(kind) => ends_with(step, kind),
                    Ok(request) => step matches ProxyStep::Send { next: Proxy::RetryHead, request: r }
                        && r@ == request,
                },
                None => ends_buffered(step, status, headers@, body@),
            },
            Proxy::RetryBody { status, headers } => ends_buffered(step, status, headers@, body@),
            Proxy::DirectBody { status, headers } => ends_buffered(step, status, headers@, body@),
            _ => ends_with(step, ErrorKind::Internal),
        },
    }
}

fn copy_body(body: &Option<Vec<u8>>) -> (r: Option<Vec<u8>>)
    ensures
        body_view(r) == body_view(*body),
{
    match body {
        Some(b) => Some(copy_bytes(b)),
        None => None,
    }
}

/// The URL of a request for `path` on `base`.
pub fn proxy_url(base: &str, path: &str, query: Option<&str>) -> (r: String)
    ensures
        r@ == proxy_url_of(base@, path@, opt_text(query)),
{
    let mut url = String::from_str(base);
    url.append(path);
    match query {
        Some(q) => {
            url.append("?");
            url.append(q);
        },
        None => {},
    }
    url
}

/// Builds the headers by which the gateway authenticates a request.
pub fn build_auth_headers_for_request(
    session: &CatbirdSession,
    key: &Option<DPoPKeyPair>,
    method: &str,
    url: &str,
    nonce: Option<String>,
    stamp: &Stamp,
) -> (r: Result<Vec<Header>, AppError>)
    ensures
        match auth_headers_of(
            session@,
            key_view(*key),
            method@,
            url@,
            nonce.deep_view(),
            stamp.jti@,
            stamp.now,
        ) {
            Ok(headers) => r matches Ok(h) && header_pairs(h@) == headers,
            Err(kind) => r matches Err(e) && e@.kind == kind,
        },
{
    let mut headers: Vec<Header> = Vec::new();
    if session.dpop_jkt.is_some() {
        let pair = match key {
            Some(k) => k,
            None => {
                return Err(AppError::Internal(String::from_str("DPoP key not found for session")));
            },
        };
        let proof = match generate_dpop_proof(session, pair, method, url, nonce, stamp) {
            Ok(p) => p,
            Err(e) => {
                return Err(e);
            },
        };
        let mut value = String::from_str("DPoP ");
        value.append(session.access_token.as_str());
        headers.push(Header { name: String::from_str("authorization"), value });
        headers.push(Header { name: String::from_str("DPoP"), value: proof });
        assert(header_pairs(headers@) =~= seq![
            ("authorization"@, "DPoP "@ + session.access_token@),
            ("DPoP"@, headers@[1].value@),
        ]);
        Ok(headers)
    } else {
        let mut value = String::from_str("Bearer ");
        value.append(session.access_token.as_str());
        headers.push(Header { name: String::from_str("authorization"), value });
        assert(header_pairs(headers@) =~= seq![
            ("authorization"@, "Bearer "@ + session.access_token@),
        ]);
        Ok(headers)
    }
}

/// Completes the headers of a request: the content type, if there is one,
/// and what may be forwarded of the client's headers.
pub fn complete_headers(
    given: Vec<Header>,
    content_type: &Option<String>,
    client_headers: &Vec<Header>,
) -> (r: Vec<Header>)
    ensures
        header_pairs(r@) == request_headers(
            header_pairs(given@),
            content_type.deep_view(),
            header_pairs(client_headers@),
        ),
{
    let with_type = match content_type {
        Some(ct) => set_header(
            given,
            Header { name: String::from_str("content-type"), value: ct.clone() },
        ),
        None => given,
    };
    forward_headers(with_type, client_headers)
}

fn attempt(ctx: &ProxyContext, nonce: Option<String>, stamp: &Stamp) -> (r: Result<
    UpstreamRequest,
    AppError,
>)
    ensures
        match attempt_of(*ctx, nonce.deep_view(), stamp.jti@, stamp.now) {
            Ok(request) => r matches Ok(q) && q@ == request,
            Err(kind) => r matches Err(e) && e@.kind == kind,
        },
{
    let auth = match build_auth_headers_for_request(
        &ctx.session,
        &ctx.key,
        ctx.method.as_str(),
        ctx.url.as_str(),
        nonce,
        stamp,
    ) {
        Ok(h) => h,
        Err(e) => {
            return Err(e);
        },
    };
    let headers = complete_headers(auth, &ctx.content_type, &ctx.client_headers);
    Ok(
        UpstreamRequest {
            method: ctx.method.clone(),
            url: ctx.url.clone(),
            headers,
            body: copy_body(&ctx.body),
        },
    )
}

fn buffered(status: u16, headers: &Vec<Header>, body: Vec<u8>) -> (r: ProxyStep)
    ensures
        ends_buffered(r, status, headers@, body@),
{
    ProxyStep::Done(
        Ok(ProxyResponse::Buffered { status, headers: filter_response_headers(headers), body }),
    )
}

fn refused() -> (r: ProxyStep)
    ensures
        ends_with(r, ErrorKind::ResponseTooLarge),
{
    ProxyStep::Done(
        Err(
            AppError::ResponseTooLarge(
                String::from_str("Response size exceeds maximum allowed 52428800 bytes"),
            ),
        ),
    )
}

fn out_of_turn() -> (r: ProxyStep)
    ensures
        ends_with(r, ErrorKind::Internal),
{
    ProxyStep::Done(Err(AppError::Internal(String::from_str("unexpected event"))))
}

fn demanded_nonce(status: u16, headers: &Vec<Header>, body: &Vec<u8>) -> (r: Option<String>)
    ensures
        r.deep_view() == nonce_demand(status, headers@, body@),
{
    wanted_nonce(status, headers, text_member(body.as_slice(), "error"))
}

/// The nonce a first response asks the request to be repeated with, if it
/// does; `error` is the `error` member of its body.
pub fn wanted_nonce(status: u16, headers: &Vec<Header>, error: Option<String>) -> (r: Option<
    String,
>)
    ensures
        r.deep_view() == nonce_wanted(status, headers@, error.deep_view()),
{
    if status != 401 {
        return None;
    }
    let challenged = match &error {
        Some(e) => str_eq(e.as_str(), "use_dpop_nonce"),
        None => false,
    };
    if challenged {
        header_value(headers, "dpop-nonce")
    } else {
        None
    }
}

impl Proxy {
    /// Starts proxying the request of `ctx`. The PDS of the session is held
    /// to the SSRF guard first: a session bound to a refused URL gets a
    /// `BadRequest`, and nothing is sent.
    pub fn begin(ctx: ProxyContext, debug_build: bool, stamp: &Stamp) -> (r: ProxyStep)
        ensures
            proxy_begun(ctx, debug_build, *stamp, r),
            !(r is Read),
    {
        match validate_pds_url_for(ctx.session.pds_url.as_str(), debug_build) {
            Err(e) => {
                return ProxyStep::Done(Err(e));
            },
            Ok(()) => {},
        }
        match attempt(&ctx, None, stamp) {
            Err(e) => ProxyStep::Done(Err(e)),
            Ok(request) => ProxyStep::Send { next: Proxy::FirstHead { ctx }, request },
        }
    }

    /// Starts a call of a server that is reached directly, with a request
    /// that is already complete: its response is read into memory under the
    /// size limit, and no challenge is answered.
    pub fn begin_direct(request: UpstreamRequest) -> (r: ProxyStep)
        ensures
            r matches ProxyStep::Send { next: Proxy::DirectHead, request: q } && q == request,
    {
        ProxyStep::Send { next: Proxy::DirectHead, request }
    }

    /// Goes on with what came back. `stamp` is used if the step sends the
    /// request again.
    pub fn advance(self, event: ProxyEvent, stamp: &Stamp) -> (r: ProxyStep)
        ensures
            proxy_advanced(self, event, *stamp, r),
            r matches ProxyStep::Send { next, .. } ==> sends_left(next) < sends_left(self),
            r matches ProxyStep::Send { next, .. } ==> steps_left(next) < steps_left(self),
            r matches ProxyStep::Read { next, .. } ==> steps_left(next) < steps_left(self),
    {
        match event {
            ProxyEvent::Failed(error) => ProxyStep::Done(Err(error)),
            ProxyEvent::Head { status, headers } => match self {
                Proxy::FirstHead { ctx } => {
                    if too_large(&headers) {
                        refused()
                    } else {
                        ProxyStep::Read {
                            next: Proxy::FirstBody { ctx, status, headers },
                            limit: MAX_RESPONSE_SIZE,
                        }
                    }
                },
                Proxy::RetryHead => match delivery(&headers) {
                    Delivery::Refuse => refused(),
                    Delivery::Stream => ProxyStep::Done(
                        Ok(
                            ProxyResponse::Streaming {
                                status,
                                headers: filter_response_headers(&headers),
                            },
                        ),
                    ),
                    Delivery::Buffer => ProxyStep::Read {
                        next: Proxy::RetryBody { status, headers },
                        limit: MAX_RESPONSE_SIZE,
                    },
                },
                Proxy::DirectHead => {
                    if too_large(&headers) {
                        refused()
                    } else {
                        ProxyStep::Read {
                            next: Proxy::DirectBody { status, headers },
                            limit: MAX_RESPONSE_SIZE,
                        }
                    }
                },
                _ => out_of_turn(),
            },
            ProxyEvent::Body(body) => match self {
                Proxy::FirstBody { ctx, status, headers } => match demanded_nonce(
                    status,
                    &headers,
                    &body,
                ) {
                    Some(nonce) => match attempt(&ctx, Some(nonce), stamp) {
                        Err(e) => ProxyStep::Done(Err(e)),
                        Ok(request) => ProxyStep::Send { next: Proxy::RetryHead, request },
                    },
                    None => buffered(status, &headers, body),
                },
                Proxy::RetryBody { status, headers } => buffered(status, &headers, body),
                Proxy::DirectBody { status, headers } => buffered(status, &headers, body),
                _ => out_of_turn(),
            },
        }
    }
}

/// A response that announces more than the limit is refused as soon as
/// its head is seen: its body is never asked for. A body that is asked for
/// is read under the limit.
pub proof fn oversize_is_refused(
    m: Proxy,
    status: u16,
    headers: Vec<Header>,
    stamp: Stamp,
    step: ProxyStep,
)
    requires
        proxy_advanced(m, ProxyEvent::Head { status, headers }, stamp, step),
        m is FirstHead || m is RetryHead || m is DirectHead,
    ensures
        announces_over(headers@, MAX_RESPONSE_SIZE as nat) ==> ends_with(
            step,
            ErrorKind::ResponseTooLarge,
        ),
        step matches ProxyStep::Read { limit, .. } ==> limit == MAX_RESPONSE_SIZE,
        !(step is Send),
{
}

/// A request is sent a second time only in answer to a demand for a nonce
/// in the first response, and never a third time: the second request is
/// the first one again (method, URL and body), authenticated with that
/// nonce, and after it nothing more is sent.
pub proof fn at_most_one_retry(m: Proxy, event: ProxyEvent, stamp: Stamp, step: ProxyStep)
    requires
        proxy_advanced(m, event, stamp, step),
    ensures
        sends_left(m) == 0 ==> !(step is Send),
        step matches ProxyStep::Send { next, request } ==> {
            &&& m matches Proxy::FirstBody { ctx, status, headers }
            &&& event matches ProxyEvent::Body(body)
            &&& nonce_demand(status, headers@, body@) matches Some(nonce)
            &&& attempt_of(ctx, Some(nonce), stamp.jti@, stamp.now) == Ok::<
                UpstreamRequestView,
                ErrorKind,
            >(request@)
            &&& request.method@ == ctx.method@
            &&& request.url@ == ctx.url@
            &&& body_view(request.body) == body_view(ctx.body)
            &&& next is RetryHead
            &&& sends_left(next) == 0
        },
{
}

/// The request that answers a demand for a nonce carries, as its one
/// `DPoP` header, the proof for this request with that nonce among its
/// claims, whatever headers the client sent.
pub proof fn retry_carries_nonce(ctx: ProxyContext, nonce: Seq<char>, jti: Seq<char>, now: i64)
    requires
        ctx.session.dpop_jkt is Some,
    ensures
        attempt_of(ctx, Some(nonce), jti, now) matches Ok(request) ==> {
            &&& ctx.key matches Some(k)
            &&& dpop_proof(
                ProofAudience::ResourceServer,
                k@,
                ctx.method@,
                ctx.url@,
                ctx.session.access_token@,
                Some(nonce),
                jti,
                now,
            ) matches Ok(proof)
            &&& named(request.headers, "dpop"@) == seq![("DPoP"@, proof)]
        },
{
    match attempt_of(ctx, Some(nonce), jti, now) {
        Ok(request) => {
            let auth = auth_headers_of(
                ctx.session@,
                key_view(ctx.key),
                ctx.method@,
                ctx.url@,
                Some(nonce),
                jti,
                now,
            ).unwrap();
            let client = header_pairs(ctx.client_headers@);
            reveal_strlit("dpop");
            reveal_strlit("DPoP");
            reveal_strlit("authorization");
            reveal_strlit("content-type");
            assert(ascii_lower("DPoP"@) =~= "dpop"@);
            assert(ascii_lower("authorization"@).len() != "dpop"@.len());
            assert(ascii_lower("content-type"@).len() != "dpop"@.len());
            assert(auth.drop_last().drop_last() =~= Seq::empty());
            assert(named(auth.drop_last().drop_last(), "dpop"@) =~= Seq::empty());
            assert(named(auth.drop_last(), "dpop"@) =~= Seq::empty());
            assert(named(auth, "dpop"@) =~= seq![auth[1]]);
            let given = match ctx.content_type.deep_view() {
                Some(ct) => with_header(auth, ("content-type"@, ct)),
                None => auth,
            };
            match ctx.content_type.deep_view() {
                Some(ct) => {
                    set_keeps_others(auth, ("content-type"@, ct), "dpop"@);
                },
                None => {},
            }
            gateway_headers_stay(given, client, "dpop"@);
        },
        Err(_) => {},
    }
}

} // verus!
