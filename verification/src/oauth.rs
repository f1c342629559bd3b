//! The OAuth flow around the authorization server: what the gateway asks
//! for, and what it does once a login has come back.
//!
//! Driving the authorization itself (identity resolution, the pushed
//! request, the code exchange) is left to the program around the library.
//! Here is what the gateway decides: which identifier a login is for, which
//! client it presents itself as, and, after the callback, which session it
//! creates, which three records it writes under the new session identifier,
//! and where it sends the client.

use crate::codec::{
    base64url,
    base64url_decode,
    base64url_decoded,
    base64url_encode,
    opt_bytes,
    sub_bytes,
};
use crate::config::AppConfig;
use crate::ecdsa::{p256_public_point, public_point};
use crate::error::{AppError, ErrorKind};
use crate::json::{json_text_member, text_member};
use crate::keys::{key_pairs, KeyPairs, KeyStore, SigningKey};
use crate::models::{
    CatbirdSession,
    DPoPKeyPair,
    DPoPKeyPairView,
    EcPublicJwk,
    EcPublicJwkView,
    LogoutResponse,
    OAuthSessionRecord,
    OAuthSessionRecordView,
    SessionView,
};
use crate::store::{
    apply,
    apply_all,
    commands_view,
    dpop_key,
    dpop_key_of,
    keys_are_distinct,
    oauth_session_key,
    oauth_session_key_of,
    oauth_state_key,
    oauth_state_key_of,
    session_key,
    session_key_of,
    Record,
    RecordView,
    StoreCommand,
    StoreCommandView,
    StoreLayout,
    StoreModel,
    COOKIE_MAX_AGE_SECONDS,
    STATE_TTL_SECONDS,
};
use crate::text::{concat, str_eq};
use vstd::array::*;
use vstd::prelude::*;
use vstd::string::*;
use vstd::utf8::encode_utf8;

verus! {

/// The name of the session cookie.
pub open spec fn session_cookie_name() -> Seq<char> {
    "catbird_session"@
}

/// The lifetime assumed for an access token whose expiry is not known, in
/// seconds.
pub const ASSUMED_TOKEN_LIFETIME: i64 = 3600;

/// A scope the gateway asks for.
#[derive(Debug)]
pub enum Scope {
    Atproto,
    TransitionGeneric,
    TransitionChatBsky,
    Unknown(String),
}

/// The scope that `text` names.
pub open spec fn scope_matches(scope: Scope, text: Seq<char>) -> bool {
    if text == "atproto"@ {
        scope is Atproto
    } else if text == "transition:generic"@ {
        scope is TransitionGeneric
    } else if text == "transition:chat.bsky"@ {
        scope is TransitionChatBsky
    } else {
        scope matches Scope::Unknown(s) && s@ == text
    }
}

/// Reads a scope from its name.
pub fn parse_scope(text: &str) -> (r: Scope)
    ensures
        scope_matches(r, text@),
{
    if str_eq(text, "atproto") {
        Scope::Atproto
    } else if str_eq(text, "transition:generic") {
        Scope::TransitionGeneric
    } else if str_eq(text, "transition:chat.bsky") {
        Scope::TransitionChatBsky
    } else {
        Scope::Unknown(String::from_str(text))
    }
}

/// What the gateway presents itself as to an authorization server: a
/// confidential client that authenticates with `private_key_jwt`, signs
/// with ES256, and uses the authorization code and refresh token grants.
#[derive(Debug)]
pub struct ClientMetadata {
    pub client_id: String,
    pub client_uri: String,
    pub redirect_uris: Vec<String>,
    pub scopes: Vec<Scope>,
    pub jwks_uri: String,
}

/// A signing key as a private JWK (`alg` is `ES256`, `use` is `sig`).
#[derive(Debug)]
pub struct PrivateJwk {
    pub kid: String,
    pub x: String,
    pub y: String,
    pub d: String,
}

/// What the OAuth client is set up with.
#[derive(Debug)]
pub struct OAuthClientSetup {
    pub metadata: ClientMetadata,
    pub keys: Vec<PrivateJwk>,
}

/// The private JWK of a key: its identifier, its coordinates and its
/// scalar in base64url. `None` where the scalar is no P-256 private key,
/// or too long to be one.
pub open spec fn private_jwk_of(kid: Seq<char>, secret: Seq<u8>) -> Option<
    (Seq<char>, Seq<char>, Seq<char>, Seq<char>),
> {
    match p256_public_point(secret) {
        Some(p) => if secret.len() <= crate::codec::MAX_ENCODABLE {
            Some(
                (
                    kid,
                    base64url(p.subrange(1, 33)),
                    base64url(p.subrange(33, 65)),
                    base64url(secret),
                ),
            )
        } else {
            None
        },
        None => None,
    }
}

/// A private JWK as plain values.
pub open spec fn private_jwk_view(k: PrivateJwk) -> (Seq<char>, Seq<char>, Seq<char>, Seq<char>) {
    (k.kid@, k.x@, k.y@, k.d@)
}

/// The private JWK of a signing key; a `Crypto` error where the key's
/// scalar is no P-256 private key.
pub fn private_jwk(key: &SigningKey) -> (r: Result<PrivateJwk, AppError>)
    ensures
        match private_jwk_of(key.kid@, key.secret_key@) {
            Some(jwk) => r matches Ok(k) && private_jwk_view(k) == jwk,
            None => r matches Err(e) && e@.kind == ErrorKind::Crypto,
        },
{
    let point = match public_point(key.secret_key.as_slice()) {
        Some(p) => p,
        None => {
            return Err(AppError::Crypto(String::from_str("Invalid signing key")));
        },
    };
    let x = base64url_encode(sub_bytes(&point, 1, 33).as_slice());
    let y = base64url_encode(sub_bytes(&point, 33, 65).as_slice());
    let d = base64url_encode(key.secret_key.as_slice());
    match (x, y, d) {
        (Some(x), Some(y), Some(d)) => Ok(PrivateJwk { kid: key.kid.clone(), x, y, d }),
        _ => Err(AppError::Crypto(String::from_str("Invalid signing key"))),
    }
}

/// `m` is the client metadata of the configuration: the client is known
/// by the configured identifier, is at home at the base URL, is called back
/// at the one configured redirect URI, publishes its keys under
/// `/.well-known/jwks.json`, and asks for the configured scopes.
pub open spec fn metadata_of(m: ClientMetadata, config: AppConfig) -> bool {
    &&& m.client_id@ == config.oauth.client_id@
    &&& m.client_uri@ == config.server.base_url@
    &&& m.redirect_uris@.len() == 1
    &&& m.redirect_uris@[0]@ == config.oauth.redirect_uri@
    &&& m.jwks_uri@ == config.server.base_url@ + "/.well-known/jwks.json"@
    &&& m.scopes@.len() == config.oauth.scopes@.len()
    &&& forall|i: int|
        0 <= i < m.scopes@.len() ==> scope_matches(#[trigger] m.scopes@[i], config.oauth.scopes@[i]@)
}

/// The client the gateway is, by its configuration.
pub fn client_metadata(config: &AppConfig) -> (r: ClientMetadata)
    ensures
        metadata_of(r, *config),
{
    let mut scopes: Vec<Scope> = Vec::new();
    let mut i: usize = 0;
    while i < config.oauth.scopes.len()
        invariant
            i <= config.oauth.scopes.len(),
            scopes@.len() == i,
            forall|j: int|
                0 <= j < i ==> scope_matches(#[trigger] scopes@[j], config.oauth.scopes@[j]@),
        decreases config.oauth.scopes.len() - i,
    {
        scopes.push(parse_scope(config.oauth.scopes[i].as_str()));
        i += 1;
    }
    let mut redirect_uris: Vec<String> = Vec::new();
    redirect_uris.push(config.oauth.redirect_uri.clone());
    ClientMetadata {
        client_id: config.oauth.client_id.clone(),
        client_uri: config.server.base_url.clone(),
        redirect_uris,
        scopes,
        jwks_uri: concat(config.server.base_url.as_str(), "/.well-known/jwks.json"),
    }
}

/// The private JWKs of the keys at and after `from`; `None` where one of
/// them has none.
pub open spec fn private_jwks_of(keys: KeyPairs, upto: int) -> Option<
    Seq<(Seq<char>, Seq<char>, Seq<char>, Seq<char>)>,
>
    decreases upto,
{
    if upto <= 0 || upto > keys.len() {
        Some(Seq::empty())
    } else {
        match private_jwks_of(keys, upto - 1) {
            None => None,
            Some(front) => match private_jwk_of(keys[upto - 1].0, keys[upto - 1].1) {
                None => None,
                Some(jwk) => Some(front.push(jwk)),
            },
        }
    }
}

/// Private JWKs as plain values.
pub open spec fn private_jwk_views(keys: Seq<PrivateJwk>) -> Seq<
    (Seq<char>, Seq<char>, Seq<char>, Seq<char>),
> {
    keys.map_values(|k: PrivateJwk| private_jwk_view(k))
}

proof fn private_jwks_fail(keys: KeyPairs, n: int, upto: int)
    requires
        0 <= n <= upto <= keys.len(),
        private_jwks_of(keys, n) is None,
    ensures
        private_jwks_of(keys, upto) is None,
    decreases upto,
{
    if n < upto {
        private_jwks_fail(keys, n, upto - 1);
    }
}

/// Sets the OAuth client up: the client metadata of the configuration and
/// the JWKs of all signing keys. Without a key store there is no client,
/// but a `Config` error; a key that is no P-256 key is a `Crypto` error.
pub fn create_oauth_client(config: &AppConfig, store: Option<&KeyStore>) -> (r: Result<
    OAuthClientSetup,
    AppError,
>)
    ensures
        match store {
            None => r matches Err(e) && e@.kind == ErrorKind::Config,
            Some(s) => match private_jwks_of(s.pairs(), s.pairs().len() as int) {
                None => r matches Err(e) && e@.kind == ErrorKind::Crypto,
                Some(jwks) => r matches Ok(setup) && private_jwk_views(setup.keys@) == jwks
                    && metadata_of(setup.metadata, *config),
            },
        },
{
    let held = match store {
        Some(s) => s,
        None => {
            return Err(AppError::Config(String::from_str("OAuth private key not configured")));
        },
    };
    let keys = held.all_keys();
    let mut jwks: Vec<PrivateJwk> = Vec::new();
    let mut i: usize = 0;
    assert(private_jwk_views(jwks@) =~= Seq::empty());
    while i < keys.len()
        invariant
            i <= keys.len(),
            store == Some(held),
            key_pairs(keys@) == held.pairs(),
            private_jwks_of(held.pairs(), i as int) == Some(private_jwk_views(jwks@)),
        decreases keys.len() - i,
    {
        assert(key_pairs(keys@)[i as int] == (keys@[i as int].kid@, keys@[i as int].secret_key@));
        let ghost before = private_jwk_views(jwks@);
        match private_jwk(&keys[i]) {
            Ok(jwk) => {
                let ghost view = private_jwk_view(jwk);
                jwks.push(jwk);
                assert(private_jwk_views(jwks@) =~= before.push(view));
            },
            Err(e) => {
                proof {
                    private_jwks_fail(held.pairs(), i + 1, held.pairs().len() as int);
                }
                return Err(e);
            },
        }
        i += 1;
    }
    Ok(OAuthClientSetup { metadata: client_metadata(config), keys: jwks })
}

/// The scopes every login asks for.
pub fn login_scopes() -> (r: Vec<Scope>)
    ensures
        r@.len() == 3,
        r@[0] is Atproto,
        r@[1] is TransitionGeneric,
        r@[2] is TransitionChatBsky,
{
    let mut scopes: Vec<Scope> = Vec::new();
    scopes.push(Scope::Atproto);
    scopes.push(Scope::TransitionGeneric);
    scopes.push(Scope::TransitionChatBsky);
    scopes
}

/// Whom a login request is for: its `identifier` parameter, else its
/// `pds`, else its `issuer`.
pub open spec fn identifier_of(
    identifier: Option<Seq<char>>,
    pds: Option<Seq<char>>,
    issuer: Option<Seq<char>>,
) -> Option<Seq<char>> {
    match identifier {
        Some(i) => Some(i),
        None => match pds {
            Some(p) => Some(p),
            None => issuer,
        },
    }
}

/// Picks the identifier a login is for out of the request's parameters; a
/// request that names none is a `BadRequest`.
pub fn login(identifier: Option<String>, pds: Option<String>, issuer: Option<String>) -> (r: Result<
    String,
    AppError,
>)
    ensures
        match identifier_of(identifier.deep_view(), pds.deep_view(), issuer.deep_view()) {
            Some(i) => r matches Ok(s) && s@ == i,
            None => r matches Err(e) && e@.kind == ErrorKind::BadRequest && e@.detail
                == "Missing identifier"@,
        },
{
    match identifier {
        Some(i) => Ok(i),
        None => match pds {
            Some(p) => Ok(p),
            None => match issuer {
                Some(i) => Ok(i),
                None => Err(AppError::BadRequest(String::from_str("Missing identifier"))),
            },
        },
    }
}

/// The session cookie as it is set or removed.
#[derive(Debug)]
pub struct SessionCookie {
    pub name: String,
    pub value: String,
    pub path: String,
    pub http_only: bool,
    pub secure: bool,
    pub same_site_strict: bool,
    pub max_age_seconds: u64,
}

/// `cookie` carries the session `id`: it is the session cookie, for the
/// whole site, not readable by scripts, sent over TLS and to this site
/// only, for 30 days.
pub open spec fn carries_session(cookie: SessionCookie, id: Seq<char>) -> bool {
    &&& cookie.name@ == session_cookie_name()
    &&& cookie.value@ == id
    &&& cookie.path@ == "/"@
    &&& cookie.http_only
    &&& cookie.secure
    &&& cookie.same_site_strict
    &&& cookie.max_age_seconds == COOKIE_MAX_AGE_SECONDS
}

/// The cookie that carries the session `id`: for the whole site, not
/// readable by scripts, sent over TLS and to this site only, for 30 days.
pub fn session_cookie(id: &str) -> (r: SessionCookie)
    ensures
        carries_session(r, id@),
{
    SessionCookie {
        name: String::from_str("catbird_session"),
        value: String::from_str(id),
        path: String::from_str("/"),
        http_only: true,
        secure: true,
        same_site_strict: true,
        max_age_seconds: COOKIE_MAX_AGE_SECONDS,
    }
}

/// The cookie that removes the session cookie: empty, and expired at once.
/// It is not readable by scripts and asks for nothing else.
pub fn removal_cookie() -> (r: SessionCookie)
    ensures
        r.name@ == session_cookie_name(),
        r.value@ == ""@,
        r.path@ == "/"@,
        r.http_only,
        !r.secure,
        !r.same_site_strict,
        r.max_age_seconds == 0,
{
    SessionCookie {
        name: String::from_str("catbird_session"),
        value: String::from_str(""),
        path: String::from_str("/"),
        http_only: true,
        secure: false,
        same_site_strict: false,
        max_age_seconds: 0,
    }
}

/// What the client is told after a logout.
pub fn logout() -> (r: LogoutResponse)
    ensures
        r.success,
        r.message@ == "Logged out"@,
{
    LogoutResponse { success: true, message: String::from_str("Logged out") }
}

/// Where the client is sent after a login: the application's callback,
/// with the session identifier in the fragment, which is never sent to a
/// server.
pub open spec fn app_redirect_of(session_id: Seq<char>) -> Seq<char> {
    "https://catbird.blue/oauth/callback#session_id="@ + session_id
}

/// A member of a JWK; empty where the JWK has none of this name.
pub open spec fn jwk_member(jwk: Seq<u8>, name: Seq<char>) -> Seq<char> {
    match json_text_member(jwk, name) {
        Some(v) => v,
        None => Seq::empty(),
    }
}

/// The DPoP key pair made of a private scalar and a public JWK: the
/// scalar must be there and have 32 bytes, else there is an `Internal`
/// error.
pub open spec fn key_pair_with(scalar: Option<Seq<u8>>, public_jwk: EcPublicJwkView) -> Result<
    DPoPKeyPairView,
    ErrorKind,
> {
    match scalar {
        None => Err(ErrorKind::Internal),
        Some(s) => if s.len() != 32 {
            Err(ErrorKind::Internal)
        } else {
            Ok(DPoPKeyPairView { public_jwk, private_key_bytes: s })
        },
    }
}

/// The private scalar that a private JWK holds: its member `d`, decoded
/// from base64url.
pub open spec fn jwk_scalar(jwk: Seq<u8>) -> Option<Seq<u8>> {
    match json_text_member(jwk, "d"@) {
        None => None,
        Some(d) => base64url_decoded(encode_utf8(d)),
    }
}

/// The DPoP key pair that a private JWK holds: its private scalar, which
/// must be 32 bytes in base64url under `d`, and its public members.
/// Anything else is an `Internal` error.
pub open spec fn key_pair_of_jwk(jwk: Seq<char>) -> Result<DPoPKeyPairView, ErrorKind> {
    let bytes = encode_utf8(jwk);
    key_pair_with(
        jwk_scalar(bytes),
        EcPublicJwkView {
            kty: jwk_member(bytes, "kty"@),
            crv: jwk_member(bytes, "crv"@),
            x: jwk_member(bytes, "x"@),
            y: jwk_member(bytes, "y"@),
        },
    )
}

fn member(jwk: &str, name: &str) -> (r: String)
    ensures
        r@ == jwk_member(encode_utf8(jwk@), name@),
{
    match text_member(jwk.as_bytes(), name) {
        Some(v) => v,
        None => String::new(),
    }
}

fn to_scalar(bytes: &Vec<u8>) -> (r: [u8; 32])
    requires
        bytes.len() == 32,
    ensures
        r@ == bytes@,
{
    let mut out: [u8; 32] = array_fill_for_copy_types(0u8);
    let mut i: usize = 0;
    while i < 32
        invariant
            i <= 32,
            bytes.len() == 32,
            forall|j: int| 0 <= j < i ==> out@[j] == bytes@[j],
        decreases 32 - i,
    {
        out[i] = bytes[i];
        i += 1;
    }
    assert(out@ =~= bytes@);
    out
}

/// Takes the DPoP key pair out of the private JWK of a login.
pub fn dpop_key_pair_from_jwk(jwk: &str) -> (r: Result<DPoPKeyPair, AppError>)
    ensures
        match key_pair_of_jwk(jwk@) {
            Ok(pair) => r matches Ok(p) && p@ == pair,
            Err(kind) => r matches Err(e) && e@.kind == kind,
        },
{
    let d = match text_member(jwk.as_bytes(), "d") {
        Some(d) => d,
        None => {
            return Err(AppError::Internal(String::from_str("DPoP key missing private component")));
        },
    };
    let scalar = match base64url_decode(d.as_str().as_bytes()) {
        Some(s) => s,
        None => {
            return Err(AppError::Internal(String::from_str("Invalid DPoP key encoding")));
        },
    };
    dpop_key_pair_from_parts(
        Some(scalar),
        EcPublicJwk {
            kty: member(jwk, "kty"),
            crv: member(jwk, "crv"),
            x: member(jwk, "x"),
            y: member(jwk, "y"),
        },
    )
}

/// Makes a DPoP key pair of a private scalar and the public JWK that goes
/// with it.
pub fn dpop_key_pair_from_parts(scalar: Option<Vec<u8>>, public_jwk: EcPublicJwk) -> (r: Result<
    DPoPKeyPair,
    AppError,
>)
    ensures
        match key_pair_with(opt_bytes(scalar), public_jwk@) {
            Ok(pair) => r matches Ok(p) && p@ == pair,
            Err(kind) => r matches Err(e) && e@.kind == kind,
        },
{
    let scalar = match scalar {
        Some(s) => s,
        None => {
            return Err(AppError::Internal(String::from_str("DPoP key missing private component")));
        },
    };
    if scalar.len() != 32 {
        return Err(AppError::Internal(String::from_str("Invalid DPoP key length")));
    }
    Ok(DPoPKeyPair { public_jwk, private_key_bytes: to_scalar(&scalar) })
}

/// When the access token of a login expires: when its token set says, or
/// an hour after the login.
pub open spec fn login_expiry(expires_at: Option<i64>, now: i64) -> i64 {
    match expires_at {
        Some(t) => t,
        None => if now + ASSUMED_TOKEN_LIFETIME > i64::MAX {
            i64::MAX
        } else {
            (now + ASSUMED_TOKEN_LIFETIME) as i64
        },
    }
}

/// The session of a login: bound to the audience of its tokens, and to a
/// DPoP key.
pub open spec fn login_session(
    did: Seq<char>,
    record: OAuthSessionRecordView,
    session_id: Seq<char>,
    now: i64,
) -> SessionView {
    SessionView {
        id: session_id,
        did,
        handle: did,
        pds_url: record.token_set.aud,
        access_token: record.token_set.access_token,
        refresh_token: match record.token_set.refresh_token {
            Some(t) => t,
            None => Seq::empty(),
        },
        access_token_expires_at: login_expiry(record.token_set.expires_at, now),
        created_at: now,
        last_used_at: now,
        dpop_jkt: Some("dpop"@),
    }
}

/// The three records of a login, each under the key of the new session and
/// with the configured lifetime: the DPoP key pair and the OAuth record
/// first, the session last.
pub open spec fn login_commands(
    prefix: Seq<char>,
    ttl_seconds: u64,
    session: SessionView,
    pair: DPoPKeyPairView,
    record: OAuthSessionRecordView,
) -> Seq<StoreCommandView> {
    seq![
        StoreCommandView::Put {
            key: dpop_key_of(prefix, session.id),
            ttl_seconds,
            record: RecordView::DpopKey(pair),
        },
        StoreCommandView::Put {
            key: oauth_session_key_of(prefix, session.id),
            ttl_seconds,
            record: RecordView::OAuthSession(record),
        },
        StoreCommandView::Put {
            key: session_key_of(prefix, session.id),
            ttl_seconds,
            record: RecordView::Session(session),
        },
    ]
}

/// What a completed login comes to.
#[derive(Debug)]
pub struct Login {
    /// The new session.
    pub session: CatbirdSession,
    /// The writes that make the session durable, in order.
    pub commands: Vec<StoreCommand>,
    /// Where the client is sent.
    pub redirect: String,
    /// The cookie that is set for clients that keep cookies.
    pub cookie: SessionCookie,
}

/// Completes a login after the authorization server's callback.
///
/// `did` is the subject the tokens were issued for, `record` what the
/// authorization left behind (the tokens and the private JWK of the DPoP
/// key), `session_id` the identifier of the new session. Without a subject
/// there is no login but an `OAuth` error; a DPoP key that cannot be read
/// is an `Internal` error.
pub fn oauth_callback(
    did: Option<String>,
    record: OAuthSessionRecord,
    session_id: String,
    now: i64,
    layout: &StoreLayout,
) -> (r: Result<Login, AppError>)
    ensures
        match did {
            None => r matches Err(e) && e@.kind == ErrorKind::OAuth,
            Some(subject) => match key_pair_of_jwk(record.dpop_key_jwk@) {
                Err(kind) => r matches Err(e) && e@.kind == kind,
                Ok(pair) => r matches Ok(login) && login.session@ == login_session(
                    subject@,
                    record@,
                    session_id@,
                    now,
                ) && commands_view(login.commands@) == login_commands(
                    layout.key_prefix@,
                    layout.session_ttl_seconds,
                    login.session@,
                    pair,
                    record@,
                ) && login.redirect@ == app_redirect_of(session_id@) && carries_session(
                    login.cookie,
                    session_id@,
                ),
            },
        },
{
    let did = match did {
        Some(d) => d,
        None => {
            return Err(AppError::OAuth(String::from_str("Failed to get DID from session")));
        },
    };
    let pair = match dpop_key_pair_from_jwk(record.dpop_key_jwk.as_str()) {
        Ok(p) => p,
        Err(e) => {
            return Err(e);
        },
    };
    let expires_at = match record.token_set.expires_at {
        Some(t) => t,
        None => if now > i64::MAX - ASSUMED_TOKEN_LIFETIME {
            i64::MAX
        } else {
            now + ASSUMED_TOKEN_LIFETIME
        },
    };
    let session = CatbirdSession {
        id: session_id.clone(),
        did: did.clone(),
        handle: did,
        pds_url: record.token_set.aud.clone(),
        access_token: record.token_set.access_token.clone(),
        refresh_token: match &record.token_set.refresh_token {
            Some(t) => t.clone(),
            None => String::new(),
        },
        access_token_expires_at: expires_at,
        created_at: now,
        last_used_at: now,
        dpop_jkt: Some(String::from_str("dpop")),
    };
    let prefix = layout.key_prefix.as_str();
    let ttl_seconds = layout.session_ttl_seconds;
    let ghost pair_view = pair@;
    let ghost record_view = record@;
    let mut commands: Vec<StoreCommand> = Vec::new();
    commands.push(
        StoreCommand::Put {
            key: dpop_key(prefix, session_id.as_str()),
            ttl_seconds,
            record: Record::DpopKey(pair),
        },
    );
    commands.push(
        StoreCommand::Put {
            key: oauth_session_key(prefix, session_id.as_str()),
            ttl_seconds,
            record: Record::OAuthSession(record),
        },
    );
    commands.push(
        StoreCommand::Put {
            key: session_key(prefix, session_id.as_str()),
            ttl_seconds,
            record: Record::Session(session.duplicate()),
        },
    );
    assert(commands_view(commands@) =~= login_commands(
        layout.key_prefix@,
        ttl_seconds,
        session@,
        pair_view,
        record_view,
    ));
    let redirect = concat("https://catbird.blue/oauth/callback#session_id=", session_id.as_str());
    let cookie = session_cookie(session_id.as_str());
    Ok(Login { session, commands, redirect, cookie })
}

/// The store of pending authorizations: their state is kept for ten
/// minutes under the `state` parameter of the authorization request.
#[derive(Debug)]
pub struct RedisStateStore {
    pub key_prefix: String,
}

impl RedisStateStore {
    /// The store under the given key prefix.
    pub fn new(key_prefix: String) -> (r: RedisStateStore)
        ensures
            r.key_prefix == key_prefix,
    {
        RedisStateStore { key_prefix }
    }

    /// The key of the state kept for `state`.
    pub fn key_for(&self, state: &str) -> (r: String)
        ensures
            r@ == oauth_state_key_of(self.key_prefix@, state@),
    {
        oauth_state_key(self.key_prefix.as_str(), state)
    }

    /// How long a state is kept, in seconds.
    pub fn ttl_seconds(&self) -> (r: u64)
        ensures
            r == STATE_TTL_SECONDS,
    {
        STATE_TTL_SECONDS
    }
}

/// The store in which an authorization leaves its outcome, under the DID
/// it was for. The gateway reads it once, in the callback, and from then
/// on keeps the tokens per session.
#[derive(Debug)]
pub struct RedisSessionStore {
    pub key_prefix: String,
}

impl RedisSessionStore {
    /// The store under the given key prefix.
    pub fn new(key_prefix: String) -> (r: RedisSessionStore)
        ensures
            r.key_prefix == key_prefix,
    {
        RedisSessionStore { key_prefix }
    }

    /// The key of the outcome kept for `did`.
    pub fn key_for(&self, did: &str) -> (r: String)
        ensures
            r@ == oauth_session_key_of(self.key_prefix@, did@),
    {
        oauth_session_key(self.key_prefix.as_str(), did)
    }

    /// How long an outcome is kept, in seconds: 30 days.
    pub fn ttl_seconds(&self) -> (r: u64)
        ensures
            r == COOKIE_MAX_AGE_SECONDS,
    {
        COOKIE_MAX_AGE_SECONDS
    }
}

/// Once the writes of a login are carried out, the store holds the three
/// records of the new session under its keys, whatever it held before: the
/// DPoP key pair, the OAuth record, and a session of the subject the tokens
/// were issued for. Nothing else in the store has changed.
pub proof fn login_is_stored(
    store: StoreModel,
    prefix: Seq<char>,
    ttl_seconds: u64,
    did: Seq<char>,
    record: OAuthSessionRecordView,
    pair: DPoPKeyPairView,
    session_id: Seq<char>,
    now: i64,
)
    ensures
        ({
            let session = login_session(did, record, session_id, now);
            let after = apply_all(
                store,
                login_commands(prefix, ttl_seconds, session, pair, record),
            );
            &&& session.id == session_id
            &&& session.did == did
            &&& after.contains_key(session_key_of(prefix, session_id))
            &&& after[session_key_of(prefix, session_id)] == RecordView::Session(session)
            &&& after.contains_key(dpop_key_of(prefix, session_id))
            &&& after[dpop_key_of(prefix, session_id)] == RecordView::DpopKey(pair)
            &&& after.contains_key(oauth_session_key_of(prefix, session_id))
            &&& after[oauth_session_key_of(prefix, session_id)] == RecordView::OAuthSession(
                record,
            )
            &&& forall|k: Seq<char>|
                k != session_key_of(prefix, session_id) && k != dpop_key_of(prefix, session_id)
                    && k != oauth_session_key_of(prefix, session_id) ==> (after.contains_key(k)
                    <==> store.contains_key(k)) && (store.contains_key(k) ==> after[k] == store[k])
        }),
{
    keys_are_distinct(prefix, session_id, session_id);
    let session = login_session(did, record, session_id, now);
    let c = login_commands(prefix, ttl_seconds, session, pair, record);
    let s1 = apply(store, c[0]);
    let c1 = c.drop_first();
    let s2 = apply(s1, c1[0]);
    let c2 = c1.drop_first();
    let s3 = apply(s2, c2[0]);
    let c3 = c2.drop_first();
    assert(c3.len() == 0);
    assert(apply_all(s3, c3) == s3);
    assert(apply_all(s2, c2) == s3);
    assert(apply_all(s1, c1) == s3);
    assert(apply_all(store, c) == s3);
}

} // verus!
