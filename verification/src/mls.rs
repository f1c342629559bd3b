//! Direct calls of the companion messaging service.
//!
//! Lexicons under `blue.catbird.mls.` are not proxied through the user's
//! PDS: where the service is configured, the gateway calls it directly and
//! authenticates with a short-lived token that it signs with its own
//! active key. No DPoP is involved; the service checks the token against
//! the keys in the gateway's DID document.

use crate::config::MlsConfig;
use crate::error::{AppError, ErrorKind};
use crate::http::{header_pairs, Header};
use crate::jwt::{make_service_token, service_token};
use crate::keys::SigningKey;
use crate::models::CatbirdSession;
use crate::proxy::{body_view, ends_with, Proxy, ProxyStep, UpstreamRequest, UpstreamRequestView};
use crate::stamp::Stamp;
use crate::text::{opt_text, starts_with};
use vstd::prelude::*;
use vstd::string::*;

verus! {

/// The lexicon belongs to the messaging service.
pub open spec fn mls_lexicon(lexicon: Seq<char>) -> bool {
    "blue.catbird.mls."@.is_prefix_of(lexicon)
}

/// The URL of a call of `lexicon` on the service at `service_url`.
pub open spec fn mls_url_of(
    service_url: Seq<char>,
    lexicon: Seq<char>,
    query: Option<Seq<char>>,
) -> Seq<char> {
    match query {
        Some(q) => service_url + "/xrpc/"@ + lexicon + "?"@ + q,
        None => service_url + "/xrpc/"@ + lexicon,
    }
}

/// The headers of a call: the token as a bearer token, and the content
/// type if there is one.
pub open spec fn mls_headers_of(token: Seq<char>, content_type: Option<Seq<char>>) -> Seq<
    (Seq<char>, Seq<char>),
> {
    match content_type {
        Some(ct) => seq![("Authorization"@, "Bearer "@ + token), ("Content-Type"@, ct)],
        None => seq![("Authorization"@, "Bearer "@ + token)],
    }
}

/// The service that calls the messaging service.
#[derive(Debug)]
pub struct MlsAuthService {
    pub config: MlsConfig,
    /// The gateway's active signing key.
    pub key: SigningKey,
}

/// `step` is the first step of a call of `lexicon` on the messaging
/// service on behalf of `user_did`: the request, authenticated by a fresh
/// service token, or a `Config` error where the service is not configured.
pub open spec fn mls_begun(
    service: MlsAuthService,
    user_did: Seq<char>,
    method: Seq<char>,
    lexicon: Seq<char>,
    query: Option<Seq<char>>,
    body: Option<Seq<u8>>,
    content_type: Option<Seq<char>>,
    stamp: Stamp,
    step: ProxyStep,
) -> bool {
    match (service.config.service_url, service.config.gateway_did) {
        (Some(url), Some(did)) => match service_token(
            did@,
            user_did,
            service.config.service_did@,
            lexicon,
            service.key.kid@,
            service.key.secret_key@,
            stamp.jti@,
            stamp.now,
        ) {
            Ok(token) => step matches ProxyStep::Send { next: Proxy::DirectHead, request }
                && request@ == (UpstreamRequestView {
                method,
                url: mls_url_of(url@, lexicon, query),
                headers: mls_headers_of(token, content_type),
                body,
            }),
            Err(kind) => ends_with(step, kind),
        },
        _ => ends_with(step, ErrorKind::Config),
    }
}

impl MlsAuthService {
    /// The service for a configuration and the gateway's active key.
    pub fn new(config: MlsConfig, key: SigningKey) -> (r: MlsAuthService)
        ensures
            r.config == config,
            r.key == key,
    {
        MlsAuthService { config, key }
    }

    /// Whether `lexicon` is one of the messaging service.
    pub fn is_mls_lexicon(lexicon: &str) -> (r: bool)
        ensures
            r == mls_lexicon(lexicon@),
    {
        starts_with(lexicon, "blue.catbird.mls.")
    }

    /// Whether the messaging service is called directly.
    pub fn is_enabled(&self) -> (r: bool)
        ensures
            r == self.config.is_enabled(),
    {
        self.config.is_enabled()
    }

    /// The URL of the messaging service, if one is configured.
    pub fn service_url(&self) -> (r: Option<&str>)
        ensures
            opt_text(r) == self.config.service_url.deep_view(),
    {
        match &self.config.service_url {
            Some(u) => Some(u.as_str()),
            None => None,
        }
    }

    /// The token for one call of `lexicon` on behalf of the session's
    /// user: issued by the gateway's DID for the service's DID, valid for
    /// two minutes. Without a configured gateway DID there is no token,
    /// but a `Config` error.
    pub fn generate_service_token(&self, session: &CatbirdSession, lexicon: &str, stamp: &Stamp) -> (r:
        Result<String, AppError>)
        ensures
            match self.config.gateway_did {
                None => r matches Err(e) && e@.kind == ErrorKind::Config,
                Some(did) => crate::jwt::outcome(r) == service_token(
                    did@,
                    session.did@,
                    self.config.service_did@,
                    lexicon@,
                    self.key.kid@,
                    self.key.secret_key@,
                    stamp.jti@,
                    stamp.now,
                ),
            },
    {
        let gateway_did = match &self.config.gateway_did {
            Some(d) => d,
            None => {
                return Err(AppError::Config(String::from_str("MLS gateway_did not configured")));
            },
        };
        make_service_token(
            gateway_did.as_str(),
            session.did.as_str(),
            self.config.service_did.as_str(),
            lexicon,
            self.key.kid.as_str(),
            self.key.secret_key.as_slice(),
            stamp,
        )
    }

    /// Starts a call of `lexicon` on the messaging service. The response
    /// is read into memory under the size limit.
    pub fn proxy_request(
        &self,
        session: &CatbirdSession,
        method: &str,
        lexicon: &str,
        query_string: Option<&str>,
        body: Option<Vec<u8>>,
        content_type: Option<&str>,
        stamp: &Stamp,
    ) -> (r: ProxyStep)
        ensures
            mls_begun(
                *self,
                session.did@,
                method@,
                lexicon@,
                opt_text(query_string),
                body_view(body),
                opt_text(content_type),
                *stamp,
                r,
            ),
    {
        let service_url = match &self.config.service_url {
            Some(u) => u,
            None => {
                return ProxyStep::Done(
                    Err(AppError::Config(String::from_str("MLS service_url not configured"))),
                );
            },
        };
        let token = match self.generate_service_token(session, lexicon, stamp) {
            Ok(t) => t,
            Err(e) => {
                return ProxyStep::Done(Err(e));
            },
        };
        let mut url = service_url.clone();
        url.append("/xrpc/");
        url.append(lexicon);
        match query_string {
            Some(q) => {
                url.append("?");
                url.append(q);
            },
            None => {},
        }
        let mut value = String::from_str("Bearer ");
        value.append(token.as_str());
        let mut headers: Vec<Header> = Vec::new();
        headers.push(Header { name: String::from_str("Authorization"), value });
        match content_type {
            Some(ct) => {
                headers.push(
                    Header { name: String::from_str("Content-Type"), value: String::from_str(ct) },
                );
            },
            None => {},
        }
        assert(header_pairs(headers@) =~= mls_headers_of(token@, opt_text(content_type)));
        Proxy::begin_direct(
            UpstreamRequest { method: String::from_str(method), url, headers, body },
        )
    }
}

} // verus!
