//! Session, token and proxy rules of an AT Protocol gateway that acts as a
//! confidential, DPoP-bound OAuth client on behalf of a mobile application.
//!
//! The library decides; it does no I/O. Whatever needs the network or the
//! store is a state machine ([`refresh`], [`revoke`], [`session`],
//! [`proxy`], [`metadata`]): it hands out an effect, is resumed with what
//! came of it, and says in its contract which step it takes on which
//! reply. The program around the library carries the effects out.
//!
//! Every function is verified with Verus against its contract, and so are
//! the laws that are stated as `proof fn`: that a login leaves its three
//! records in the store, that a refresh keeps a session's identity and
//! leaves other sessions alone, that a revocation always clears the
//! session, that a request is repeated at most once, that an oversized
//! response is refused, what the rate limiter lets through, and which
//! addresses the SSRF guard blocks.
//!
//! What is believed and not proved are the contracts of the functions
//! marked `external_body` in [`codec`], [`ecdsa`], [`json`], [`keys`],
//! [`stamp`], [`text`] and [`weburl`]: each calls one function of another
//! crate or of `std` and says in its doc comment what is claimed of it.

pub mod auth;
pub mod authserver;
pub mod client;
pub mod codec;
pub mod config;
pub mod did;
pub mod ecdsa;
pub mod error;
pub mod headers;
pub mod http;
pub mod json;
pub mod jwt;
pub mod keys;
pub mod limits;
pub mod metadata;
pub mod metrics;
pub mod mls;
pub mod models;
pub mod oauth;
pub mod proxy;
pub mod rate_limit;
pub mod refresh;
pub mod revoke;
pub mod session;
pub mod ssrf;
pub mod stamp;
pub mod store;
pub mod text;
pub mod weburl;
