//! The client of a user's PDS, and the route of an XRPC request.
//!
//! A request for a lexicon of the messaging service goes to that service
//! directly, where it is configured; every other request is proxied to the
//! PDS of the session.

use crate::error::{AppError, ErrorKind};
use crate::http::{header_of, header_pairs, header_value, is_success, status_is_success, Header};
use crate::json::{
    is_json,
    json_member_pairs,
    json_text_member,
    json_valid,
    member_pairs,
    pairs_view,
    text_member,
    TextPair,
};
use crate::jwt::{dpop_proof, outcome, ProofAudience};
use crate::mls::{mls_begun, mls_lexicon, MlsAuthService};
use crate::models::{CatbirdSession, DPoPKeyPair};
use crate::proxy::{
    auth_headers_of,
    body_view,
    complete_headers,
    key_view,
    proxy_begun,
    proxy_url,
    proxy_url_of,
    request_headers,
    Proxy,
    ProxyContext,
    ProxyStep,
    UpstreamRequest,
    UpstreamRequestView,
};
use crate::stamp::Stamp;
use crate::store::{dpop_key, dpop_key_of};
use crate::ssrf::{rejection, validate_pds_url_for};
use crate::text::{concat, opt_text, starts_with, str_eq};
use crate::weburl::url_parts;
use vstd::prelude::*;
use vstd::string::*;
use vstd::utf8::encode_utf8;

verus! {

/// The client for authenticated requests to the PDS of a session.
#[derive(Debug)]
pub struct AtProtoClient {
    /// Whether the gateway was built for development (see the SSRF guard).
    pub debug_build: bool,
}

/// What the response to a JSON request comes to, given whether its body
/// is JSON: its body where the status is one of success and the body is
/// JSON, an `HttpClient` error where it is not JSON, and an `Upstream`
/// error with status and body where the status is not one of success.
pub open spec fn judged(status: u16, valid: bool, body: Seq<char>, r: Result<String, AppError>) -> bool {
    if is_success(status) {
        if valid {
            r matches Ok(b) && b@ == body
        } else {
            r matches Err(e) && e@.kind == ErrorKind::HttpClient
        }
    } else {
        r matches Err(e) && e@.kind == ErrorKind::Upstream && e@.status == status && e@.detail
            == body
    }
}

/// What the response to a JSON request comes to.
pub open spec fn response_outcome(status: u16, body: Seq<char>, r: Result<String, AppError>) -> bool {
    judged(status, json_valid(encode_utf8(body)), body, r)
}

/// Judges a response, given whether its body is JSON.
pub fn judge_response(status: u16, valid: bool, body: String) -> (r: Result<String, AppError>)
    ensures
        judged(status, valid, body@, r),
{
    if status_is_success(status) {
        if valid {
            Ok(body)
        } else {
            Err(AppError::HttpClient(String::from_str("response is not JSON")))
        }
    } else {
        Err(AppError::Upstream { status, message: body })
    }
}

/// The context of a proxied request, as plain values.
pub open spec fn context_is(
    ctx: ProxyContext,
    session: CatbirdSession,
    key: Option<DPoPKeyPair>,
    method: Seq<char>,
    url: Seq<char>,
    body: Option<Seq<u8>>,
    content_type: Option<Seq<char>>,
    client_headers: Seq<Header>,
) -> bool {
    &&& ctx.session == session
    &&& ctx.key == key
    &&& ctx.method@ == method
    &&& ctx.url@ == url
    &&& body_view(ctx.body) == body
    &&& ctx.content_type.deep_view() == content_type
    &&& ctx.client_headers@ == client_headers
}

impl AtProtoClient {
    /// A client of a gateway of the given build.
    pub fn new(debug_build: bool) -> (r: AtProtoClient)
        ensures
            r.debug_build == debug_build,
    {
        AtProtoClient { debug_build }
    }

    /// The key under which the DPoP key pair of `session` is read. It is
    /// kept by session, not by user, so that each device has its own.
    pub fn get_dpop_private_key(&self, key_prefix: &str, session: &CatbirdSession) -> (r: String)
        ensures
            r@ == dpop_key_of(key_prefix@, session.id@),
    {
        dpop_key(key_prefix, session.id.as_str())
    }

    /// Makes the DPoP proof for a request to the session's PDS.
    pub fn generate_dpop_proof(
        &self,
        session: &CatbirdSession,
        key: &DPoPKeyPair,
        http_method: &str,
        http_url: &str,
        nonce: Option<String>,
        stamp: &Stamp,
    ) -> (r: Result<String, AppError>)
        ensures
            outcome(r) == dpop_proof(
                ProofAudience::ResourceServer,
                key@,
                http_method@,
                http_url@,
                session.access_token@,
                nonce.deep_view(),
                stamp.jti@,
                stamp.now,
            ),
    {
        crate::jwt::generate_dpop_proof(session, key, http_method, http_url, nonce, stamp)
    }

    /// Builds the headers by which the gateway authenticates a request to
    /// the session's PDS.
    pub fn build_auth_headers_for_request(
        &self,
        session: &CatbirdSession,
        key: &Option<DPoPKeyPair>,
        method: &str,
        url: &str,
        nonce: Option<String>,
        stamp: &Stamp,
    ) -> (r: Result<Vec<Header>, AppError>)
        ensures
            match auth_headers_of(
                session@,
                key_view(*key),
                method@,
                url@,
                nonce.deep_view(),
                stamp.jti@,
                stamp.now,
            ) {
                Ok(headers) => r matches Ok(h) && header_pairs(h@) == headers,
                Err(kind) => r matches Err(e) && e@.kind == kind,
            },
    {
        crate::proxy::build_auth_headers_for_request(session, key, method, url, nonce, stamp)
    }

    /// The authenticated `GET` of `path` on the session's PDS.
    pub fn get(
        &self,
        session: &CatbirdSession,
        key: &Option<DPoPKeyPair>,
        path: &str,
        stamp: &Stamp,
    ) -> (r: Result<UpstreamRequest, AppError>)
        ensures
            match auth_headers_of(
                session@,
                key_view(*key),
                "GET"@,
                session.pds_url@ + path@,
                None,
                stamp.jti@,
                stamp.now,
            ) {
                Ok(headers) => r matches Ok(q) && q@ == (UpstreamRequestView {
                    method: "GET"@,
                    url: session.pds_url@ + path@,
                    headers,
                    body: None,
                }),
                Err(kind) => r matches Err(e) && e@.kind == kind,
            },
    {
        let url = concat(session.pds_url.as_str(), path);
        let headers = match crate::proxy::build_auth_headers_for_request(
            session,
            key,
            "GET",
            url.as_str(),
            None,
            stamp,
        ) {
            Ok(h) => h,
            Err(e) => {
                return Err(e);
            },
        };
        Ok(UpstreamRequest { method: String::from_str("GET"), url, headers, body: None })
    }

    /// The authenticated `POST` of the JSON text `body` to `path` on the
    /// session's PDS.
    pub fn post(
        &self,
        session: &CatbirdSession,
        key: &Option<DPoPKeyPair>,
        path: &str,
        body: &str,
        stamp: &Stamp,
    ) -> (r: Result<UpstreamRequest, AppError>)
        ensures
            match auth_headers_of(
                session@,
                key_view(*key),
                "POST"@,
                session.pds_url@ + path@,
                None,
                stamp.jti@,
                stamp.now,
            ) {
                Ok(headers) => r matches Ok(q) && q@ == (UpstreamRequestView {
                    method: "POST"@,
                    url: session.pds_url@ + path@,
                    headers: request_headers(headers, Some("application/json"@), Seq::empty()),
                    body: Some(encode_utf8(body@)),
                }),
                Err(kind) => r matches Err(e) && e@.kind == kind,
            },
    {
        let url = concat(session.pds_url.as_str(), path);
        let auth = match crate::proxy::build_auth_headers_for_request(
            session,
            key,
            "POST",
            url.as_str(),
            None,
            stamp,
        ) {
            Ok(h) => h,
            Err(e) => {
                return Err(e);
            },
        };
        let none: Vec<Header> = Vec::new();
        assert(header_pairs(none@) =~= Seq::empty());
        let headers = complete_headers(auth, &Some(String::from_str("application/json")), &none);
        Ok(
            UpstreamRequest {
                method: String::from_str("POST"),
                url,
                headers,
                body: Some(body.as_bytes_vec()),
            },
        )
    }

    /// Judges the response to a request of [`AtProtoClient::get`] or
    /// [`AtProtoClient::post`].
    pub fn handle_response(status: u16, body: String) -> (r: Result<String, AppError>)
        ensures
            response_outcome(status, body@, r),
    {
        let valid = is_json(body.as_str().as_bytes());
        judge_response(status, valid, body)
    }

    /// Starts proxying a request to the PDS of `session`, with method and
    /// body as they came, to `path` with the query string as it came.
    /// `key` is the DPoP key pair that the store holds for the session.
    pub fn proxy_request(
        &self,
        session: CatbirdSession,
        key: Option<DPoPKeyPair>,
        method: &str,
        path: &str,
        query_string: Option<&str>,
        body: Option<Vec<u8>>,
        content_type: Option<&str>,
        client_headers: Vec<Header>,
        stamp: &Stamp,
    ) -> (r: ProxyStep)
        ensures
            exists|ctx: ProxyContext|
                context_is(
                    ctx,
                    session,
                    key,
                    method@,
                    proxy_url_of(session.pds_url@, path@, opt_text(query_string)),
                    body_view(body),
                    opt_text(content_type),
                    client_headers@,
                ) && proxy_begun(ctx, self.debug_build, *stamp, r),
            !(r is Read),
    {
        let url = proxy_url(session.pds_url.as_str(), path, query_string);
        let content_type = match content_type {
            Some(ct) => Some(String::from_str(ct)),
            None => None,
        };
        let ctx = ProxyContext {
            session,
            key,
            method: String::from_str(method),
            url,
            body,
            content_type,
            client_headers,
        };
        Proxy::begin(ctx, self.debug_build, stamp)
    }
}

/// Where a handle is resolved.
pub open spec fn handle_resolution_url(handle: Seq<char>) -> Seq<char> {
    "https://bsky.social/xrpc/com.atproto.identity.resolveHandle?handle="@ + handle
}

/// What the answer to the resolution of a handle comes to, given whether
/// its body is JSON and the `did` member of it: the DID; an `Upstream`
/// error with the status where the status is not one of success; an
/// `HttpClient` error where the body is no JSON; an `Internal` error where
/// it names no DID.
pub open spec fn handle_outcome(status: u16, valid: bool, did: Option<Seq<char>>) -> Result<
    Seq<char>,
    (ErrorKind, u16),
> {
    if !is_success(status) {
        Err((ErrorKind::Upstream, status))
    } else if !valid {
        Err((ErrorKind::HttpClient, 0u16))
    } else {
        match did {
            Some(d) => Ok(d),
            None => Err((ErrorKind::Internal, 0u16)),
        }
    }
}

/// `r` is the outcome `expected`: the text, or an error of the kind, which
/// carries the status where it is an `Upstream` error.
pub open spec fn resolved_as(r: Result<String, AppError>, expected: Result<Seq<char>, (ErrorKind, u16)>) -> bool {
    match expected {
        Ok(text) => r matches Ok(t) && t@ == text,
        Err(failure) => r matches Err(e) && e@.kind == failure.0 && (failure.0
            == ErrorKind::Upstream ==> e@.status == failure.1),
    }
}

/// The type of the service that is a user's PDS in a DID document.
pub open spec fn pds_service_type() -> Seq<char> {
    "AtprotoPersonalDataServer"@
}

/// The endpoint of the first service at or after `from` that is a PDS:
/// `Some(None)` where that service names no endpoint, `None` where there
/// is no such service.
pub open spec fn first_pds(services: Seq<TextPair>, from: int) -> Option<Option<Seq<char>>>
    decreases services.len() - from,
{
    if from < 0 || from >= services.len() {
        None
    } else if services[from].0 == Some(pds_service_type()) {
        Some(services[from].1)
    } else {
        first_pds(services, from + 1)
    }
}

/// Where the DID document of `did` is found: in the PLC directory. Only
/// `did:plc` identifiers are resolved.
pub open spec fn did_resolution_url(did: Seq<char>) -> Option<Seq<char>> {
    if "did:plc:"@.is_prefix_of(did) {
        Some("https://plc.directory/"@ + did)
    } else {
        None
    }
}

/// What the answer to the resolution of a DID comes to, given whether its
/// body is JSON and the type and endpoint of each of its services: the
/// endpoint of the first service that is a PDS, if the SSRF guard accepts
/// it (a `BadRequest` if not). Without such a service, or where it names
/// no endpoint, there is an `Internal` error.
pub open spec fn pds_outcome(
    status: u16,
    valid: bool,
    services: Option<Seq<TextPair>>,
    debug_build: bool,
) -> Result<Seq<char>, (ErrorKind, u16)> {
    if !is_success(status) {
        Err((ErrorKind::Upstream, status))
    } else if !valid {
        Err((ErrorKind::HttpClient, 0u16))
    } else {
        match services {
            None => Err((ErrorKind::Internal, 0u16)),
            Some(list) => match first_pds(list, 0) {
                None | Some(None) => Err((ErrorKind::Internal, 0u16)),
                Some(Some(endpoint)) => if rejection(url_parts(endpoint), debug_build) is Some {
                    Err((ErrorKind::BadRequest, 0u16))
                } else {
                    Ok(endpoint)
                },
            },
        }
    }
}

impl AtProtoClient {
    /// The URL to fetch in order to resolve `handle` to a DID; the answer
    /// goes to [`AtProtoClient::handle_resolved`].
    pub fn resolve_handle(handle: &str) -> (r: String)
        ensures
            r@ == handle_resolution_url(handle@),
    {
        concat("https://bsky.social/xrpc/com.atproto.identity.resolveHandle?handle=", handle)
    }

    /// The DID that the answer to the resolution of a handle names.
    pub fn handle_resolved(status: u16, body: &str) -> (r: Result<String, AppError>)
        ensures
            resolved_as(
                r,
                handle_outcome(
                    status,
                    json_valid(encode_utf8(body@)),
                    json_text_member(encode_utf8(body@), "did"@),
                ),
            ),
    {
        let bytes = body.as_bytes();
        AtProtoClient::handle_from_document(status, is_json(bytes), text_member(bytes, "did"))
    }

    /// The DID that the answer to the resolution of a handle names, given
    /// whether the answer's body is JSON and its member `did`.
    pub fn handle_from_document(status: u16, valid: bool, did: Option<String>) -> (r: Result<
        String,
        AppError,
    >)
        ensures
            resolved_as(r, handle_outcome(status, valid, did.deep_view())),
    {
        if !status_is_success(status) {
            return Err(
                AppError::Upstream { status, message: String::from_str("Failed to resolve handle") },
            );
        }
        if !valid {
            return Err(AppError::HttpClient(String::from_str("response is not JSON")));
        }
        match did {
            Some(d) => Ok(d),
            None => Err(AppError::Internal(String::from_str("Invalid resolution response"))),
        }
    }

    /// The URL to fetch in order to resolve `did` to its PDS; the answer
    /// goes to [`AtProtoClient::pds_resolved`]. A DID of a method other
    /// than `plc` is an `Internal` error.
    pub fn resolve_pds(did: &str) -> (r: Result<String, AppError>)
        ensures
            match did_resolution_url(did@) {
                Some(url) => r matches Ok(u) && u@ == url,
                None => r matches Err(e) && e@.kind == ErrorKind::Internal,
            },
    {
        if starts_with(did, "did:plc:") {
            Ok(concat("https://plc.directory/", did))
        } else {
            Err(AppError::Internal(String::from_str("Unsupported DID method")))
        }
    }

    /// The PDS that the answer to the resolution of a DID names.
    pub fn pds_resolved(&self, status: u16, body: &str) -> (r: Result<String, AppError>)
        ensures
            resolved_as(
                r,
                pds_outcome(
                    status,
                    json_valid(encode_utf8(body@)),
                    json_member_pairs(
                        encode_utf8(body@),
                        "service"@,
                        "type"@,
                        "serviceEndpoint"@,
                    ),
                    self.debug_build,
                ),
            ),
    {
        let bytes = body.as_bytes();
        let services = member_pairs(bytes, "service", "type", "serviceEndpoint");
        self.pds_from_document(status, is_json(bytes), services)
    }

    /// The PDS that the answer to the resolution of a DID names, given
    /// whether the answer's body is JSON and, for each service of the
    /// document, its type and its endpoint.
    pub fn pds_from_document(
        &self,
        status: u16,
        valid: bool,
        services: Option<Vec<(Option<String>, Option<String>)>>,
    ) -> (r: Result<String, AppError>)
        ensures
            resolved_as(r, pds_outcome(status, valid, pairs_view(services), self.debug_build)),
    {
        if !status_is_success(status) {
            return Err(
                AppError::Upstream { status, message: String::from_str("Failed to resolve DID") },
            );
        }
        if !valid {
            return Err(AppError::HttpClient(String::from_str("response is not JSON")));
        }
        let list = match services {
            Some(l) => l,
            None => {
                return Err(AppError::Internal(String::from_str("No PDS service found for DID")));
            },
        };
        let ghost entries = pairs_view(Some(list)).unwrap();
        let mut i: usize = 0;
        while i < list.len()
            invariant
                i <= list.len(),
                is_success(status),
                valid,
                pairs_view(services) == Some(entries),
                entries == pairs_view(Some(list)).unwrap(),
                first_pds(entries, 0) == first_pds(entries, i as int),
            decreases list.len() - i,
        {
            assert(entries[i as int] == (list@[i as int].0.deep_view(), list@[i as int].1.deep_view()));
            let is_pds = match &list[i].0 {
                Some(t) => str_eq(t.as_str(), "AtprotoPersonalDataServer"),
                None => false,
            };
            assert(is_pds == (entries[i as int].0 == Some(pds_service_type()))) by {
                match list@[i as int].0 {
                    Some(t) => {
                        assert(list@[i as int].0.deep_view() == Some(t@));
                    },
                    None => {},
                }
            }
            if is_pds {
                assert(first_pds(entries, 0) == Some(entries[i as int].1));
                return match &list[i].1 {
                    None => Err(AppError::Internal(String::from_str("Invalid service endpoint"))),
                    Some(endpoint) => {
                        assert(entries[i as int].1 == Some(endpoint@));
                        match validate_pds_url_for(endpoint.as_str(), self.debug_build) {
                            Err(e) => Err(e),
                            Ok(()) => Ok(endpoint.clone()),
                        }
                    },
                };
            }
            i += 1;
        }
        Err(AppError::Internal(String::from_str("No PDS service found for DID")))
    }
}

/// The path of a lexicon on a PDS.
pub open spec fn xrpc_path(lexicon: Seq<char>) -> Seq<char> {
    "/xrpc/"@ + lexicon
}

/// The body of a request as it is forwarded: none where it is empty.
pub open spec fn forwarded_body(body: Seq<u8>) -> Option<Seq<u8>> {
    if body.len() == 0 {
        None
    } else {
        Some(body)
    }
}

/// Starts serving an XRPC request of an authenticated client: directly on
/// the messaging service where the lexicon is one of its and the service
/// is configured, else through the PDS of the session. The content type is
/// that of the request's headers.
pub fn proxy_xrpc(
    client: &AtProtoClient,
    mls: Option<&MlsAuthService>,
    session: CatbirdSession,
    key: Option<DPoPKeyPair>,
    method: &str,
    lexicon: &str,
    raw_query: Option<&str>,
    headers: Vec<Header>,
    body: Vec<u8>,
    stamp: &Stamp,
) -> (r: ProxyStep)
    ensures
        !(r is Read),
        match mls {
            Some(service) if mls_lexicon(lexicon@) && service.config.is_enabled() => mls_begun(
                *service,
                session.did@,
                method@,
                lexicon@,
                opt_text(raw_query),
                forwarded_body(body@),
                header_of(headers@, "content-type"@),
                *stamp,
                r,
            ),
            _ => exists|ctx: ProxyContext|
                context_is(
                    ctx,
                    session,
                    key,
                    method@,
                    proxy_url_of(session.pds_url@, xrpc_path(lexicon@), opt_text(raw_query)),
                    forwarded_body(body@),
                    header_of(headers@, "content-type"@),
                    headers@,
                ) && proxy_begun(ctx, client.debug_build, *stamp, r),
        },
{
    let content_type = header_value(&headers, "content-type");
    let body_option = if body.len() == 0 {
        None
    } else {
        Some(body)
    };
    let direct = match mls {
        Some(service) => MlsAuthService::is_mls_lexicon(lexicon) && service.is_enabled(),
        None => false,
    };
    if direct {
        match mls {
            Some(service) => {
                return match &content_type {
                    Some(ct) => service.proxy_request(
                        &session,
                        method,
                        lexicon,
                        raw_query,
                        body_option,
                        Some(ct.as_str()),
                        stamp,
                    ),
                    None => service.proxy_request(
                        &session,
                        method,
                        lexicon,
                        raw_query,
                        body_option,
                        None,
                        stamp,
                    ),
                };
            },
            None => {},
        }
    }
    let path = concat("/xrpc/", lexicon);
    match &content_type {
        Some(ct) => client.proxy_request(
            session,
            key,
            method,
            path.as_str(),
            raw_query,
            body_option,
            Some(ct.as_str()),
            headers,
            stamp,
        ),
        None => client.proxy_request(
            session,
            key,
            method,
            path.as_str(),
            raw_query,
            body_option,
            None,
            headers,
            stamp,
        ),
    }
}

} // verus!
