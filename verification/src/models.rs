//! The records the gateway keeps and the bodies it exchanges.
//!
//! Instants are Unix times in seconds. A session identifier is the
//! hyphenated text of a random 128-bit UUID.

use vstd::prelude::*;
use vstd::string::*;

verus! {

/// How long before its expiry an access token is refreshed, in seconds.
pub const EXPIRY_MARGIN_SECONDS: i64 = 60;

/// One login of one device.
#[derive(Debug)]
pub struct CatbirdSession {
    /// Unique session identifier.
    pub id: String,
    /// The user's DID.
    pub did: String,
    /// The user's handle.
    pub handle: String,
    /// The PDS this session is bound to.
    pub pds_url: String,
    pub access_token: String,
    pub refresh_token: String,
    /// When the access token expires.
    pub access_token_expires_at: i64,
    pub created_at: i64,
    pub last_used_at: i64,
    /// Present when the tokens are bound to a DPoP key.
    pub dpop_jkt: Option<String>,
}

/// [`CatbirdSession`] as plain values.
pub struct SessionView {
    pub id: Seq<char>,
    pub did: Seq<char>,
    pub handle: Seq<char>,
    pub pds_url: Seq<char>,
    pub access_token: Seq<char>,
    pub refresh_token: Seq<char>,
    pub access_token_expires_at: i64,
    pub created_at: i64,
    pub last_used_at: i64,
    pub dpop_jkt: Option<Seq<char>>,
}

impl View for CatbirdSession {
    type V = SessionView;

    open spec fn view(&self) -> SessionView {
        SessionView {
            id: self.id@,
            did: self.did@,
            handle: self.handle@,
            pds_url: self.pds_url@,
            access_token: self.access_token@,
            refresh_token: self.refresh_token@,
            access_token_expires_at: self.access_token_expires_at,
            created_at: self.created_at,
            last_used_at: self.last_used_at,
            dpop_jkt: self.dpop_jkt.deep_view(),
        }
    }
}

/// A copy of an optional string.
pub fn copy_opt(s: &Option<String>) -> (r: Option<String>)
    ensures
        r.deep_view() == s.deep_view(),
{
    match s {
        Some(t) => Some(t.clone()),
        None => None,
    }
}

/// The access token of a session expires within the margin after `now`.
pub open spec fn token_expired(s: SessionView, now: i64) -> bool {
    now + EXPIRY_MARGIN_SECONDS >= s.access_token_expires_at
}

/// The session has to be refreshed before it is used: its token is about to
/// expire, or it was stored without a PDS URL.
pub open spec fn needs_refresh(s: SessionView, now: i64) -> bool {
    token_expired(s, now) || s.pds_url.len() == 0
}

impl CatbirdSession {
    /// Whether the access token has expired or will within 60 seconds of
    /// `now`.
    pub fn is_access_token_expired(&self, now: i64) -> (r: bool)
        ensures
            r == token_expired(self@, now),
    {
        now as i128 + EXPIRY_MARGIN_SECONDS as i128 >= self.access_token_expires_at as i128
    }

    /// Whether the session must be refreshed before use at time `now`.
    pub fn needs_refresh(&self, now: i64) -> (r: bool)
        ensures
            r == needs_refresh(self@, now),
    {
        self.is_access_token_expired(now) || self.pds_url.as_str().unicode_len() == 0
    }

    /// A copy of this session.
    pub fn duplicate(&self) -> (r: CatbirdSession)
        ensures
            r@ == self@,
    {
        CatbirdSession {
            id: self.id.clone(),
            did: self.did.clone(),
            handle: self.handle.clone(),
            pds_url: self.pds_url.clone(),
            access_token: self.access_token.clone(),
            refresh_token: self.refresh_token.clone(),
            access_token_expires_at: self.access_token_expires_at,
            created_at: self.created_at,
            last_used_at: self.last_used_at,
            dpop_jkt: copy_opt(&self.dpop_jkt),
        }
    }

    /// What a client is told about its session.
    pub fn info(&self) -> (r: SessionInfo)
        ensures
            r.did@ == self.did@,
            r.handle@ == self.handle@,
            r.created_at == self.created_at,
    {
        SessionInfo {
            did: self.did.clone(),
            handle: self.handle.clone(),
            created_at: self.created_at,
        }
    }
}

/// What is kept between the redirect to the authorization server and its
/// callback.
#[derive(Debug)]
pub struct OAuthState {
    /// State parameter for CSRF protection.
    pub state: String,
    /// PKCE code verifier.
    pub code_verifier: String,
    /// The authorization server.
    pub issuer: String,
    pub created_at: i64,
    /// The DPoP private key of this authorization, as a JWK.
    pub dpop_private_key_jwk: String,
}

/// A token endpoint's answer.
#[derive(Debug)]
pub struct TokenResponse {
    pub access_token: String,
    pub token_type: String,
    pub expires_in: u64,
    pub refresh_token: Option<String>,
    pub scope: Option<String>,
    /// The DID of the authenticated user.
    pub sub: String,
}

/// Who a session belongs to.
#[derive(Debug)]
pub struct UserInfo {
    pub did: String,
    pub handle: String,
    pub pds_url: String,
}

/// Body of the health endpoint.
#[derive(Debug)]
pub struct HealthResponse {
    pub status: String,
    pub version: String,
    pub redis_connected: bool,
}

/// Parameters of a login request.
#[derive(Debug)]
pub struct LoginRequest {
    /// The user's handle, DID or PDS.
    pub identifier: String,
}

/// Where to send the user to authorize.
#[derive(Debug)]
pub struct LoginResponse {
    pub authorization_url: String,
}

/// Parameters of the authorization server's callback.
#[derive(Debug)]
pub struct OAuthCallback {
    pub code: String,
    pub state: String,
    pub iss: Option<String>,
}

/// Body of the session endpoint.
#[derive(Debug)]
pub struct SessionInfo {
    pub did: String,
    pub handle: String,
    pub created_at: i64,
}

/// Body of the logout endpoint.
#[derive(Debug)]
pub struct LogoutResponse {
    pub success: bool,
    pub message: String,
}

/// The public half of a P-256 key as a JWK: `kty`, `crv` and the two
/// coordinates in unpadded URL-safe base64.
#[derive(Debug)]
pub struct EcPublicJwk {
    pub kty: String,
    pub crv: String,
    pub x: String,
    pub y: String,
}

/// [`EcPublicJwk`] as plain values.
pub struct EcPublicJwkView {
    pub kty: Seq<char>,
    pub crv: Seq<char>,
    pub x: Seq<char>,
    pub y: Seq<char>,
}

impl View for EcPublicJwk {
    type V = EcPublicJwkView;

    open spec fn view(&self) -> EcPublicJwkView {
        EcPublicJwkView { kty: self.kty@, crv: self.crv@, x: self.x@, y: self.y@ }
    }
}

impl EcPublicJwk {
    /// A copy of this key.
    pub fn duplicate(&self) -> (r: EcPublicJwk)
        ensures
            r@ == self@,
    {
        EcPublicJwk {
            kty: self.kty.clone(),
            crv: self.crv.clone(),
            x: self.x.clone(),
            y: self.y.clone(),
        }
    }
}

/// The DPoP key pair of one session. It is made once, at login, and signs
/// every proof of that session.
#[derive(Debug)]
pub struct DPoPKeyPair {
    /// The public key, as it goes into the header of each proof.
    pub public_jwk: EcPublicJwk,
    /// The private scalar, big endian.
    pub private_key_bytes: [u8; 32],
}

/// [`DPoPKeyPair`] as plain values.
pub struct DPoPKeyPairView {
    pub public_jwk: EcPublicJwkView,
    pub private_key_bytes: Seq<u8>,
}

impl View for DPoPKeyPair {
    type V = DPoPKeyPairView;

    open spec fn view(&self) -> DPoPKeyPairView {
        DPoPKeyPairView {
            public_jwk: self.public_jwk@,
            private_key_bytes: self.private_key_bytes@,
        }
    }
}

/// The tokens an authorization server issued.
#[derive(Debug)]
pub struct TokenSet {
    pub iss: String,
    pub sub: String,
    /// The audience: the origin of the PDS.
    pub aud: String,
    pub scope: Option<String>,
    pub refresh_token: Option<String>,
    pub access_token: String,
    pub token_type: String,
    pub expires_at: Option<i64>,
}

/// [`TokenSet`] as plain values.
pub struct TokenSetView {
    pub iss: Seq<char>,
    pub sub: Seq<char>,
    pub aud: Seq<char>,
    pub scope: Option<Seq<char>>,
    pub refresh_token: Option<Seq<char>>,
    pub access_token: Seq<char>,
    pub token_type: Seq<char>,
    pub expires_at: Option<i64>,
}

impl View for TokenSet {
    type V = TokenSetView;

    open spec fn view(&self) -> TokenSetView {
        TokenSetView {
            iss: self.iss@,
            sub: self.sub@,
            aud: self.aud@,
            scope: self.scope.deep_view(),
            refresh_token: self.refresh_token.deep_view(),
            access_token: self.access_token@,
            token_type: self.token_type@,
            expires_at: self.expires_at,
        }
    }
}

/// What is kept per session for refreshing its tokens: the token set and
/// the DPoP key it is bound to, as the JWK text the login produced.
#[derive(Debug)]
pub struct OAuthSessionRecord {
    pub dpop_key_jwk: String,
    pub token_set: TokenSet,
}

/// [`OAuthSessionRecord`] as plain values.
pub struct OAuthSessionRecordView {
    pub dpop_key_jwk: Seq<char>,
    pub token_set: TokenSetView,
}

impl View for OAuthSessionRecord {
    type V = OAuthSessionRecordView;

    open spec fn view(&self) -> OAuthSessionRecordView {
        OAuthSessionRecordView { dpop_key_jwk: self.dpop_key_jwk@, token_set: self.token_set@ }
    }
}

} // verus!
