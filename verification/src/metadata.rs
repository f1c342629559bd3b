//! Discovery of an authorization server's endpoints from a PDS URL.
//!
//! The PDS names its authorization server in its protected-resource
//! metadata; the authorization server names its endpoints in its own
//! metadata. Every URL on the way is held to the SSRF guard before it is
//! fetched or handed on.

use crate::error::{AppError, ErrorKind};
use crate::http::{is_success, status_is_success};
use crate::json::{first_text, is_json, json_first_text, json_text_member, json_valid, text_member};
use crate::ssrf::{rejection, validate_pds_url_for};
use crate::text::{concat, u64_decimal};
use crate::weburl::url_parts;
use vstd::prelude::*;
use vstd::string::*;
use vstd::utf8::encode_utf8;

verus! {

/// The endpoints the gateway looks for.
#[derive(Clone, Copy, Debug, PartialEq, Eq, Structural)]
pub enum EndpointKind {
    Token,
    Revocation,
}

impl EndpointKind {
    /// The member of the server metadata that holds this endpoint.
    pub open spec fn member(self) -> Seq<char> {
        match self {
            EndpointKind::Token => "token_endpoint"@,
            EndpointKind::Revocation => "revocation_endpoint"@,
        }
    }

    /// The member of the server metadata that holds this endpoint.
    pub fn member_name(self) -> (r: &'static str)
        ensures
            r@ == self.member(),
    {
        match self {
            EndpointKind::Token => "token_endpoint",
            EndpointKind::Revocation => "revocation_endpoint",
        }
    }
}

/// Where a PDS publishes its protected-resource metadata.
pub open spec fn resource_metadata_url(pds_url: Seq<char>) -> Seq<char> {
    pds_url + "/.well-known/oauth-protected-resource"@
}

/// Where an authorization server publishes its metadata.
pub open spec fn server_metadata_url(auth_server: Seq<char>) -> Seq<char> {
    auth_server + "/.well-known/oauth-authorization-server"@
}

/// A discovery under way: which document is awaited.
#[derive(Debug)]
pub enum Discovery {
    /// The protected-resource metadata of the PDS.
    Resource { kind: EndpointKind, debug_build: bool },
    /// The metadata of the authorization server.
    Server { kind: EndpointKind, debug_build: bool },
}

/// What a discovery needs or has come to.
#[derive(Debug)]
pub enum DiscoveryStep {
    /// Fetch `url` and hand the response to `state`.
    Fetch { state: Discovery, url: String },
    /// The endpoint.
    Found(String),
    /// No endpoint could be found.
    Failed(AppError),
}

/// [`DiscoveryStep`] as plain values; of an error, its kind.
pub enum DiscoveryStepView {
    Fetch { state: Discovery, url: Seq<char> },
    Found(Seq<char>),
    Failed(ErrorKind),
}

impl View for DiscoveryStep {
    type V = DiscoveryStepView;

    open spec fn view(&self) -> DiscoveryStepView {
        match self {
            DiscoveryStep::Fetch { state, url } => DiscoveryStepView::Fetch {
                state: *state,
                url: url@,
            },
            DiscoveryStep::Found(e) => DiscoveryStepView::Found(e@),
            DiscoveryStep::Failed(e) => DiscoveryStepView::Failed(e@.kind),
        }
    }
}

/// The first step of a discovery from `pds_url`.
pub open spec fn discovery_begin(
    pds_url: Seq<char>,
    kind: EndpointKind,
    debug_build: bool,
) -> DiscoveryStepView {
    if rejection(url_parts(pds_url), debug_build) is Some {
        DiscoveryStepView::Failed(ErrorKind::BadRequest)
    } else {
        DiscoveryStepView::Fetch {
            state: Discovery::Resource { kind, debug_build },
            url: resource_metadata_url(pds_url),
        }
    }
}

/// The step after a response with the given status, given what was read
/// in its body: `valid` says whether it is JSON, and `found` is what it
/// holds where the discovery looks (see [`sought`]). Whatever URL is found
/// is held to the SSRF guard before it is used.
pub open spec fn discovery_step(
    state: Discovery,
    status: u16,
    valid: bool,
    found: Option<Seq<char>>,
) -> DiscoveryStepView {
    if !is_success(status) {
        DiscoveryStepView::Failed(ErrorKind::Internal)
    } else if !valid {
        DiscoveryStepView::Failed(ErrorKind::HttpClient)
    } else {
        match found {
            None => DiscoveryStepView::Failed(ErrorKind::Internal),
            Some(url) => match state {
                Discovery::Resource { kind, debug_build } => if rejection(
                    url_parts(url),
                    debug_build,
                ) is Some {
                    DiscoveryStepView::Failed(ErrorKind::BadRequest)
                } else {
                    DiscoveryStepView::Fetch {
                        state: Discovery::Server { kind, debug_build },
                        url: server_metadata_url(url),
                    }
                },
                Discovery::Server { kind, debug_build } => if rejection(
                    url_parts(url),
                    debug_build,
                ) is Some {
                    DiscoveryStepView::Failed(ErrorKind::BadRequest)
                } else {
                    DiscoveryStepView::Found(url)
                },
            },
        }
    }
}

/// What a discovery looks for in the document it awaits: in the metadata
/// of the PDS, the first of its `authorization_servers`; in the metadata
/// of the authorization server, the endpoint.
pub open spec fn sought(state: Discovery, body: Seq<u8>) -> Option<Seq<char>> {
    match state {
        Discovery::Resource { .. } => json_first_text(body, "authorization_servers"@),
        Discovery::Server { kind, .. } => json_text_member(body, kind.member()),
    }
}

/// The step after a response with the given status and body.
pub open spec fn discovery_next(state: Discovery, status: u16, body: Seq<char>) -> DiscoveryStepView {
    let bytes = encode_utf8(body);
    discovery_step(state, status, json_valid(bytes), sought(state, bytes))
}

/// How many fetches a discovery may still ask for.
pub open spec fn fetches_left(state: Discovery) -> nat {
    match state {
        Discovery::Resource { .. } => 1,
        Discovery::Server { .. } => 0,
    }
}

fn fetch_failed(what: &str, status: u16) -> (r: AppError)
    ensures
        r@.kind == ErrorKind::Internal,
{
    let mut message = String::from_str("Failed to fetch ");
    message.append(what);
    message.append(": ");
    message.append(u64_decimal(status as u64).as_str());
    AppError::Internal(message)
}

impl Discovery {
    /// Starts the discovery of an endpoint of the authorization server of
    /// `pds_url`.
    pub fn begin(pds_url: &str, kind: EndpointKind, debug_build: bool) -> (r: DiscoveryStep)
        ensures
            r@ == discovery_begin(pds_url@, kind, debug_build),
    {
        match validate_pds_url_for(pds_url, debug_build) {
            Err(e) => DiscoveryStep::Failed(e),
            Ok(()) => DiscoveryStep::Fetch {
                state: Discovery::Resource { kind, debug_build },
                url: concat(pds_url, "/.well-known/oauth-protected-resource"),
            },
        }
    }

    /// Goes on with the response to the last fetch.
    pub fn on_response(self, status: u16, body: &str) -> (r: DiscoveryStep)
        ensures
            r@ == discovery_next(self, status, body@),
            r matches DiscoveryStep::Fetch { state, .. } ==> fetches_left(state) < fetches_left(
                self,
            ),
    {
        let valid = is_json(body.as_bytes());
        let found = match self {
            Discovery::Resource { .. } => first_text(body.as_bytes(), "authorization_servers"),
            Discovery::Server { kind, .. } => text_member(body.as_bytes(), kind.member_name()),
        };
        self.on_document(status, valid, found)
    }

    /// Goes on with what was read in the response to the last fetch:
    /// whether its body is JSON, and what it holds where this discovery
    /// looks.
    pub fn on_document(self, status: u16, valid: bool, found: Option<String>) -> (r: DiscoveryStep)
        ensures
            r@ == discovery_step(self, status, valid, found.deep_view()),
            r matches DiscoveryStep::Fetch { state, .. } ==> fetches_left(state) < fetches_left(
                self,
            ),
    {
        if !status_is_success(status) {
            let what = match self {
                Discovery::Resource { .. } => "resource server metadata",
                Discovery::Server { .. } => "auth server metadata",
            };
            return DiscoveryStep::Failed(fetch_failed(what, status));
        }
        if !valid {
            return DiscoveryStep::Failed(
                AppError::HttpClient(String::from_str("metadata is not JSON")),
            );
        }
        match self {
            Discovery::Resource { kind, debug_build } => {
                let server = match found {
                    Some(s) => s,
                    None => {
                        return DiscoveryStep::Failed(
                            AppError::Internal(
                                String::from_str("No authorization_servers in resource metadata"),
                            ),
                        );
                    },
                };
                match validate_pds_url_for(server.as_str(), debug_build) {
                    Err(e) => DiscoveryStep::Failed(e),
                    Ok(()) => DiscoveryStep::Fetch {
                        state: Discovery::Server { kind, debug_build },
                        url: concat(server.as_str(), "/.well-known/oauth-authorization-server"),
                    },
                }
            },
            Discovery::Server { kind, debug_build } => {
                let endpoint = match found {
                    Some(e) => e,
                    None => {
                        let message = concat(
                            concat("No ", kind.member_name()).as_str(),
                            " in auth server metadata",
                        );
                        return DiscoveryStep::Failed(AppError::Internal(message));
                    },
                };
                match validate_pds_url_for(endpoint.as_str(), debug_build) {
                    Err(e) => DiscoveryStep::Failed(e),
                    Ok(()) => DiscoveryStep::Found(endpoint),
                }
            },
        }
    }
}

} // verus!
