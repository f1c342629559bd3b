//! The gateway's configuration, as plain values, and its defaults.

use vstd::prelude::*;
use vstd::string::*;

verus! {

/// Everything the gateway is configured with.
#[derive(Debug)]
pub struct AppConfig {
    pub server: ServerConfig,
    pub redis: RedisConfig,
    pub oauth: OAuthConfig,
    pub mls: MlsConfig,
}

/// The companion messaging service and the gateway's own identity towards
/// it. Requests are sent to the service directly only when both
/// `service_url` and `gateway_did` are set.
#[derive(Debug)]
pub struct MlsConfig {
    pub service_url: Option<String>,
    pub gateway_did: Option<String>,
    pub service_did: String,
}

/// Where the gateway listens and under which URL it is reached.
#[derive(Debug)]
pub struct ServerConfig {
    pub host: String,
    pub port: u16,
    pub base_url: String,
}

/// The session store.
#[derive(Debug)]
pub struct RedisConfig {
    pub url: String,
    pub key_prefix: String,
    pub session_ttl_seconds: u64,
}

/// The OAuth client the gateway is.
#[derive(Debug)]
pub struct OAuthConfig {
    pub client_id: String,
    pub private_key_path: Option<String>,
    pub private_key_base64: Option<String>,
    pub private_key_paths: Vec<String>,
    pub active_key_id: String,
    pub redirect_uri: String,
    pub scopes: Vec<String>,
}

/// The DID of the messaging service when none is configured.
pub fn default_mls_service_did() -> (r: String)
    ensures
        r@ == "did:web:mls.catbird.blue"@,
{
    String::from_str("did:web:mls.catbird.blue")
}

/// The address the gateway binds to when none is configured.
pub fn default_host() -> (r: String)
    ensures
        r@ == "127.0.0.1"@,
{
    String::from_str("127.0.0.1")
}

/// The port the gateway listens on when none is configured.
pub fn default_port() -> (r: u16)
    ensures
        r == 3000,
{
    3000
}

/// The session store's URL when none is configured.
pub fn default_redis_url() -> (r: String)
    ensures
        r@ == "redis://127.0.0.1:6379"@,
{
    String::from_str("redis://127.0.0.1:6379")
}

/// The prefix of every storage key when none is configured.
pub fn default_key_prefix() -> (r: String)
    ensures
        r@ == "catbird:session:"@,
{
    String::from_str("catbird:session:")
}

/// How long a session's records live when nothing is configured: 30 days,
/// in seconds.
pub fn default_session_ttl() -> (r: u64)
    ensures
        r == 30 * 86400,
{
    2_592_000
}

/// The scopes asked for when none are configured.
pub fn default_scopes() -> (r: Vec<String>)
    ensures
        r@.len() == 3,
        r@[0]@ == "atproto"@,
        r@[1]@ == "transition:generic"@,
        r@[2]@ == "transition:chat.bsky"@,
{
    let mut scopes: Vec<String> = Vec::new();
    scopes.push(String::from_str("atproto"));
    scopes.push(String::from_str("transition:generic"));
    scopes.push(String::from_str("transition:chat.bsky"));
    scopes
}

impl MlsConfig {
    /// Direct routing switched off, with the default service DID.
    pub fn unset() -> (r: MlsConfig)
        ensures
            r.service_url is None,
            r.gateway_did is None,
            r.service_did@ == "did:web:mls.catbird.blue"@,
            !r.is_enabled(),
    {
        MlsConfig { service_url: None, gateway_did: None, service_did: default_mls_service_did() }
    }

    /// Whether requests for the messaging service are sent to it directly.
    #[verifier::when_used_as_spec(spec_is_enabled)]
    pub fn is_enabled(&self) -> (r: bool)
        ensures
            r == self.spec_is_enabled(),
    {
        self.service_url.is_some() && self.gateway_did.is_some()
    }

    /// Both the service's URL and the gateway's DID are configured.
    pub open spec fn spec_is_enabled(&self) -> bool {
        self.service_url is Some && self.gateway_did is Some
    }
}

} // verus!
