//! The signed tokens the gateway issues: DPoP proofs, client assertions and
//! service-auth tokens. All are compact JWS with ES256.
//!
//! The members of each JSON object are written in the byte order of their
//! names, without white space.

use crate::codec::{
    base64url,
    base64url_encode,
    json_quote,
    json_quoted,
    sha256,
    sha256_digest,
    MAX_ENCODABLE,
};
use crate::ecdsa::{es256_signature, sign};
use crate::error::{AppError, ErrorKind};
use crate::models::{CatbirdSession, DPoPKeyPair, DPoPKeyPairView, EcPublicJwk, EcPublicJwkView};
use crate::stamp::Stamp;
use crate::text::{ascii_upper, i64_decimal, int_decimal, to_ascii_upper};
use crate::weburl::{parse_url, url_parts, written_host, UrlParts, UrlPartsView};
use vstd::prelude::*;
use vstd::string::*;
use vstd::utf8::encode_utf8;

verus! {

/// How long a client assertion is valid, in seconds.
pub const CLIENT_ASSERTION_TTL: i64 = 300;

/// How long a service-auth token is valid, in seconds.
pub const SERVICE_TOKEN_TTL: i64 = 120;

/// What a fallible operation comes to, as plain values: the text it
/// produced, or the kind of its error.
pub open spec fn outcome(r: Result<String, AppError>) -> Result<Seq<char>, ErrorKind> {
    match r {
        Ok(s) => Ok(s@),
        Err(e) => Err(e@.kind),
    }
}

/// The text fits the encoder: its UTF-8 form has at most
/// [`MAX_ENCODABLE`] bytes.
pub open spec fn encodable(text: Seq<char>) -> bool {
    encode_utf8(text).len() <= MAX_ENCODABLE
}

/// What gets signed: both parts in base64url, joined by a dot.
pub open spec fn signing_input(header: Seq<char>, payload: Seq<char>) -> Seq<char> {
    base64url(encode_utf8(header)) + "."@ + base64url(encode_utf8(payload))
}

/// The compact JWS of `header` and `payload` under `secret`: the signing
/// input, a dot, and the signature in base64url. An oversized part is an
/// `Internal` error, an unusable key a `Crypto` error.
pub open spec fn jws(header: Seq<char>, payload: Seq<char>, secret: Seq<u8>) -> Result<
    Seq<char>,
    ErrorKind,
> {
    if !encodable(header) || !encodable(payload) {
        Err(ErrorKind::Internal)
    } else {
        match es256_signature(secret, encode_utf8(signing_input(header, payload))) {
            Some(sig) => Ok(signing_input(header, payload) + "."@ + base64url(sig)),
            None => Err(ErrorKind::Crypto),
        }
    }
}

/// Signs `header` and `payload` with the private scalar `secret`.
pub fn sign_compact(header: &str, payload: &str, secret: &[u8]) -> (r: Result<String, AppError>)
    ensures
        outcome(r) == jws(header@, payload@, secret@),
{
    let h = match base64url_encode(header.as_bytes()) {
        Some(h) => h,
        None => {
            return Err(AppError::Internal(String::from_str("JWT header too long")));
        },
    };
    let p = match base64url_encode(payload.as_bytes()) {
        Some(p) => p,
        None => {
            return Err(AppError::Internal(String::from_str("JWT payload too long")));
        },
    };
    let mut token = h;
    token.append(".");
    token.append(p.as_str());
    let signature = match sign(secret, token.as_str().as_bytes()) {
        Some(s) => s,
        None => {
            return Err(AppError::Crypto(String::from_str("Invalid signing key")));
        },
    };
    let encoded = match base64url_encode(signature.as_slice()) {
        Some(e) => e,
        None => {
            return Err(AppError::Internal(String::from_str("signature too long")));
        },
    };
    token.append(".");
    token.append(encoded.as_str());
    Ok(token)
}

/// `now + ttl`, or `i64::MAX` where that does not fit.
pub open spec fn expiry(now: i64, ttl: i64) -> i64 {
    if now + ttl <= i64::MAX {
        (now + ttl) as i64
    } else {
        i64::MAX
    }
}

fn expiry_of(now: i64, ttl: i64) -> (r: i64)
    requires
        0 <= ttl,
    ensures
        r == expiry(now, ttl),
{
    if now <= i64::MAX - ttl {
        now + ttl
    } else {
        i64::MAX
    }
}

/// Whom a DPoP proof is shown to.
#[derive(Clone, Copy, Debug, PartialEq, Eq, Structural)]
pub enum ProofAudience {
    /// A PDS: the proof is bound to the access token by `ath`.
    ResourceServer,
    /// A token or revocation endpoint: the proof carries no `ath`.
    AuthorizationServer,
}

/// The claims of a DPoP proof.
#[derive(Debug)]
pub struct DpopClaims {
    pub jti: String,
    pub htm: String,
    pub htu: String,
    pub iat: i64,
    pub ath: Option<String>,
    pub nonce: Option<String>,
}

/// [`DpopClaims`] as plain values.
pub struct DpopClaimsView {
    pub jti: Seq<char>,
    pub htm: Seq<char>,
    pub htu: Seq<char>,
    pub iat: i64,
    pub ath: Option<Seq<char>>,
    pub nonce: Option<Seq<char>>,
}

impl View for DpopClaims {
    type V = DpopClaimsView;

    open spec fn view(&self) -> DpopClaimsView {
        DpopClaimsView {
            jti: self.jti@,
            htm: self.htm@,
            htu: self.htu@,
            iat: self.iat,
            ath: self.ath.deep_view(),
            nonce: self.nonce.deep_view(),
        }
    }
}

/// The `htu` of a request to `url`: scheme, host and path, without query
/// and fragment.
pub open spec fn htu_of(url: UrlPartsView) -> Seq<char> {
    url.scheme + "://"@ + written_host(url) + url.path
}

/// The `ath` for an access token: its SHA-256 digest in base64url.
pub open spec fn access_token_hash(access_token: Seq<char>) -> Seq<char> {
    base64url(sha256(encode_utf8(access_token)))
}

/// The claims of the proof for one request.
pub open spec fn dpop_claims(
    audience: ProofAudience,
    method: Seq<char>,
    url: UrlPartsView,
    access_token: Seq<char>,
    nonce: Option<Seq<char>>,
    jti: Seq<char>,
    iat: i64,
) -> DpopClaimsView {
    DpopClaimsView {
        jti,
        htm: ascii_upper(method),
        htu: htu_of(url),
        iat,
        ath: match audience {
            ProofAudience::ResourceServer => Some(access_token_hash(access_token)),
            ProofAudience::AuthorizationServer => None,
        },
        nonce,
    }
}

/// The `htu` of a request to `url`.
pub fn htu(url: &UrlParts) -> (r: String)
    ensures
        r@ == htu_of(url@),
{
    let mut out = url.scheme.clone();
    out.append("://");
    out.append(url.host_str());
    out.append(url.path.as_str());
    out
}

/// The `ath` claim for `access_token`.
pub fn ath(access_token: &str) -> (r: String)
    ensures
        r@ == access_token_hash(access_token@),
{
    let digest = sha256_digest(access_token.as_bytes());
    match base64url_encode(digest.as_slice()) {
        Some(a) => a,
        None => String::new(),
    }
}

/// Builds the claims of the proof for one request.
pub fn build_dpop_claims(
    audience: ProofAudience,
    method: &str,
    url: &UrlParts,
    access_token: &str,
    nonce: Option<String>,
    stamp: &Stamp,
) -> (r: DpopClaims)
    ensures
        r@ == dpop_claims(
            audience,
            method@,
            url@,
            access_token@,
            nonce.deep_view(),
            stamp.jti@,
            stamp.now,
        ),
{
    let bound = match audience {
        ProofAudience::ResourceServer => Some(ath(access_token)),
        ProofAudience::AuthorizationServer => None,
    };
    DpopClaims {
        jti: stamp.jti.clone(),
        htm: to_ascii_upper(method),
        htu: htu(url),
        iat: stamp.now,
        ath: bound,
        nonce,
    }
}

/// The header of a DPoP proof made with the key `jwk`.
pub open spec fn dpop_header_json(jwk: EcPublicJwkView) -> Seq<char> {
    "{\"alg\":\"ES256\",\"jwk\":{\"crv\":"@ + json_quoted(jwk.crv) + ",\"kty\":"@ + json_quoted(
        jwk.kty,
    ) + ",\"x\":"@ + json_quoted(jwk.x) + ",\"y\":"@ + json_quoted(jwk.y)
        + "},\"typ\":\"dpop+jwt\"}"@
}

/// The `ath` member of a payload, with the comma after it; empty where
/// there is no `ath`.
pub open spec fn ath_member(ath: Option<Seq<char>>) -> Seq<char> {
    match ath {
        Some(a) => "\"ath\":"@ + json_quoted(a) + ","@,
        None => Seq::empty(),
    }
}

/// The `nonce` member of a payload, with the comma before it; empty where
/// there is no nonce.
pub open spec fn nonce_member(nonce: Option<Seq<char>>) -> Seq<char> {
    match nonce {
        Some(n) => ",\"nonce\":"@ + json_quoted(n),
        None => Seq::empty(),
    }
}

/// The payload of a DPoP proof with the claims `c`.
pub open spec fn dpop_payload_json(c: DpopClaimsView) -> Seq<char> {
    "{"@ + ath_member(c.ath) + "\"htm\":"@ + json_quoted(c.htm) + ",\"htu\":"@ + json_quoted(c.htu)
        + ",\"iat\":"@ + int_decimal(c.iat as int) + ",\"jti\":"@ + json_quoted(c.jti)
        + nonce_member(c.nonce) + "}"@
}

impl EcPublicJwk {
    /// The header of a DPoP proof made with this key.
    pub fn dpop_header(&self) -> (r: String)
        ensures
            r@ == dpop_header_json(self@),
    {
        let mut out = String::from_str("{\"alg\":\"ES256\",\"jwk\":{\"crv\":");
        out.append(json_quote(self.crv.as_str()).as_str());
        out.append(",\"kty\":");
        out.append(json_quote(self.kty.as_str()).as_str());
        out.append(",\"x\":");
        out.append(json_quote(self.x.as_str()).as_str());
        out.append(",\"y\":");
        out.append(json_quote(self.y.as_str()).as_str());
        out.append("},\"typ\":\"dpop+jwt\"}");
        out
    }
}

impl DpopClaims {
    /// The payload of a proof with these claims.
    pub fn to_json(&self) -> (r: String)
        ensures
            r@ == dpop_payload_json(self@),
    {
        let ath_part = match &self.ath {
            Some(a) => {
                let mut part = String::from_str("\"ath\":");
                part.append(json_quote(a.as_str()).as_str());
                part.append(",");
                part
            },
            None => String::new(),
        };
        let nonce_part = match &self.nonce {
            Some(n) => {
                let mut part = String::from_str(",\"nonce\":");
                part.append(json_quote(n.as_str()).as_str());
                part
            },
            None => String::new(),
        };
        let mut out = String::from_str("{");
        out.append(ath_part.as_str());
        out.append("\"htm\":");
        out.append(json_quote(self.htm.as_str()).as_str());
        out.append(",\"htu\":");
        out.append(json_quote(self.htu.as_str()).as_str());
        out.append(",\"iat\":");
        out.append(i64_decimal(self.iat).as_str());
        out.append(",\"jti\":");
        out.append(json_quote(self.jti.as_str()).as_str());
        out.append(nonce_part.as_str());
        out.append("}");
        out
    }
}

/// The DPoP proof for one request: `Internal` where `url` does not parse or
/// a part is oversized, `Crypto` where the key cannot sign.
pub open spec fn dpop_proof(
    audience: ProofAudience,
    key: DPoPKeyPairView,
    method: Seq<char>,
    url: Seq<char>,
    access_token: Seq<char>,
    nonce: Option<Seq<char>>,
    jti: Seq<char>,
    iat: i64,
) -> Result<Seq<char>, ErrorKind> {
    match url_parts(url) {
        None => Err(ErrorKind::Internal),
        Some(parts) => jws(
            dpop_header_json(key.public_jwk),
            dpop_payload_json(dpop_claims(audience, method, parts, access_token, nonce, jti, iat)),
            key.private_key_bytes,
        ),
    }
}

/// Makes the DPoP proof for one request to `http_url`, for the given
/// audience, stamped with `stamp`.
pub fn make_dpop_proof(
    audience: ProofAudience,
    key: &DPoPKeyPair,
    http_method: &str,
    http_url: &str,
    access_token: &str,
    nonce: Option<String>,
    stamp: &Stamp,
) -> (r: Result<String, AppError>)
    ensures
        outcome(r) == dpop_proof(
            audience,
            key@,
            http_method@,
            http_url@,
            access_token@,
            nonce.deep_view(),
            stamp.jti@,
            stamp.now,
        ),
{
    let parts = match parse_url(http_url) {
        Some(p) => p,
        None => {
            return Err(AppError::Internal(String::from_str("Invalid URL")));
        },
    };
    let claims = build_dpop_claims(audience, http_method, &parts, access_token, nonce, stamp);
    let header = key.public_jwk.dpop_header();
    let payload = claims.to_json();
    sign_compact(header.as_str(), payload.as_str(), key.private_key_bytes.as_slice())
}

/// Makes the DPoP proof for a request to the session's PDS: it carries
/// `ath`, the hash of the session's access token.
pub fn generate_dpop_proof(
    session: &CatbirdSession,
    key: &DPoPKeyPair,
    http_method: &str,
    http_url: &str,
    nonce: Option<String>,
    stamp: &Stamp,
) -> (r: Result<String, AppError>)
    ensures
        outcome(r) == dpop_proof(
            ProofAudience::ResourceServer,
            key@,
            http_method@,
            http_url@,
            session.access_token@,
            nonce.deep_view(),
            stamp.jti@,
            stamp.now,
        ),
{
    make_dpop_proof(
        ProofAudience::ResourceServer,
        key,
        http_method,
        http_url,
        session.access_token.as_str(),
        nonce,
        stamp,
    )
}

/// Makes the DPoP proof for a request to an authorization server's
/// endpoint: it carries no `ath`.
pub fn generate_dpop_proof_for_auth_server(
    session: &CatbirdSession,
    key: &DPoPKeyPair,
    http_method: &str,
    http_url: &str,
    nonce: Option<String>,
    stamp: &Stamp,
) -> (r: Result<String, AppError>)
    ensures
        outcome(r) == dpop_proof(
            ProofAudience::AuthorizationServer,
            key@,
            http_method@,
            http_url@,
            session.access_token@,
            nonce.deep_view(),
            stamp.jti@,
            stamp.now,
        ),
{
    make_dpop_proof(
        ProofAudience::AuthorizationServer,
        key,
        http_method,
        http_url,
        session.access_token.as_str(),
        nonce,
        stamp,
    )
}

/// The header of a JWT signed with the gateway key `kid`.
pub open spec fn jwt_header_json(kid: Seq<char>) -> Seq<char> {
    "{\"alg\":\"ES256\",\"kid\":"@ + json_quoted(kid) + ",\"typ\":\"JWT\"}"@
}

/// Signs the claims `claims_json` with a gateway key, naming the key in the
/// header.
pub fn sign_jwt_with_kid(claims_json: &str, secret: &[u8], kid: &str) -> (r: Result<
    String,
    AppError,
>)
    ensures
        outcome(r) == jws(jwt_header_json(kid@), claims_json@, secret@),
{
    let mut header = String::from_str("{\"alg\":\"ES256\",\"kid\":");
    header.append(json_quote(kid).as_str());
    header.append(",\"typ\":\"JWT\"}");
    sign_compact(header.as_str(), claims_json, secret)
}

/// The audience of a client assertion sent to `endpoint`: the origin
/// (scheme and host) of the endpoint, or the endpoint as it is where it
/// does not parse.
pub open spec fn assertion_audience(endpoint: Seq<char>) -> Seq<char> {
    match url_parts(endpoint) {
        Some(u) => u.scheme + "://"@ + written_host(u),
        None => endpoint,
    }
}

/// The claims of a client assertion.
pub open spec fn client_assertion_json(
    client_id: Seq<char>,
    audience: Seq<char>,
    jti: Seq<char>,
    now: i64,
) -> Seq<char> {
    "{\"aud\":"@ + json_quoted(audience) + ",\"exp\":"@ + int_decimal(
        expiry(now, CLIENT_ASSERTION_TTL) as int,
    ) + ",\"iat\":"@ + int_decimal(now as int) + ",\"iss\":"@ + json_quoted(client_id)
        + ",\"jti\":"@ + json_quoted(jti) + ",\"sub\":"@ + json_quoted(client_id) + "}"@
}

/// The client assertion for one request to `endpoint`.
pub open spec fn client_assertion(
    client_id: Seq<char>,
    kid: Seq<char>,
    secret: Seq<u8>,
    endpoint: Seq<char>,
    jti: Seq<char>,
    now: i64,
) -> Result<Seq<char>, ErrorKind> {
    jws(
        jwt_header_json(kid),
        client_assertion_json(client_id, assertion_audience(endpoint), jti, now),
        secret,
    )
}

/// Makes the `private_key_jwt` client assertion for one request to
/// `endpoint` of an authorization server: issuer and subject are the
/// client, it is valid for five minutes from `stamp.now`, and its `jti` is
/// `stamp.jti`.
pub fn generate_client_assertion(
    client_id: &str,
    kid: &str,
    secret: &[u8],
    endpoint: &str,
    stamp: &Stamp,
) -> (r: Result<String, AppError>)
    ensures
        outcome(r) == client_assertion(
            client_id@,
            kid@,
            secret@,
            endpoint@,
            stamp.jti@,
            stamp.now,
        ),
{
    let audience = match parse_url(endpoint) {
        Some(u) => {
            let mut a = u.scheme.clone();
            a.append("://");
            a.append(u.host_str());
            a
        },
        None => String::from_str(endpoint),
    };
    let mut claims = String::from_str("{\"aud\":");
    claims.append(json_quote(audience.as_str()).as_str());
    claims.append(",\"exp\":");
    claims.append(i64_decimal(expiry_of(stamp.now, CLIENT_ASSERTION_TTL)).as_str());
    claims.append(",\"iat\":");
    claims.append(i64_decimal(stamp.now).as_str());
    claims.append(",\"iss\":");
    claims.append(json_quote(client_id).as_str());
    claims.append(",\"jti\":");
    claims.append(json_quote(stamp.jti.as_str()).as_str());
    claims.append(",\"sub\":");
    claims.append(json_quote(client_id).as_str());
    claims.append("}");
    sign_jwt_with_kid(claims.as_str(), secret, kid)
}

/// The claims of a service-auth token.
pub open spec fn service_claims_json(
    gateway_did: Seq<char>,
    user_did: Seq<char>,
    service_did: Seq<char>,
    lexicon: Seq<char>,
    jti: Seq<char>,
    now: i64,
) -> Seq<char> {
    "{\"aud\":"@ + json_quoted(service_did) + ",\"exp\":"@ + int_decimal(
        expiry(now, SERVICE_TOKEN_TTL) as int,
    ) + ",\"iat\":"@ + int_decimal(now as int) + ",\"iss\":"@ + json_quoted(gateway_did)
        + ",\"jti\":"@ + json_quoted(jti) + ",\"lxm\":"@ + json_quoted(lexicon) + ",\"sub\":"@
        + json_quoted(user_did) + "}"@
}

/// The service-auth token for one call of `lexicon` on behalf of
/// `user_did`.
pub open spec fn service_token(
    gateway_did: Seq<char>,
    user_did: Seq<char>,
    service_did: Seq<char>,
    lexicon: Seq<char>,
    kid: Seq<char>,
    secret: Seq<u8>,
    jti: Seq<char>,
    now: i64,
) -> Result<Seq<char>, ErrorKind> {
    jws(
        jwt_header_json(kid),
        service_claims_json(gateway_did, user_did, service_did, lexicon, jti, now),
        secret,
    )
}

/// Makes the token that authenticates the gateway to the messaging service
/// for one call: issued by the gateway for the user, valid for two minutes.
pub fn make_service_token(
    gateway_did: &str,
    user_did: &str,
    service_did: &str,
    lexicon: &str,
    kid: &str,
    secret: &[u8],
    stamp: &Stamp,
) -> (r: Result<String, AppError>)
    ensures
        outcome(r) == service_token(
            gateway_did@,
            user_did@,
            service_did@,
            lexicon@,
            kid@,
            secret@,
            stamp.jti@,
            stamp.now,
        ),
{
    let mut claims = String::from_str("{\"aud\":");
    claims.append(json_quote(service_did).as_str());
    claims.append(",\"exp\":");
    claims.append(i64_decimal(expiry_of(stamp.now, SERVICE_TOKEN_TTL)).as_str());
    claims.append(",\"iat\":");
    claims.append(i64_decimal(stamp.now).as_str());
    claims.append(",\"iss\":");
    claims.append(json_quote(gateway_did).as_str());
    claims.append(",\"jti\":");
    claims.append(json_quote(stamp.jti.as_str()).as_str());
    claims.append(",\"lxm\":");
    claims.append(json_quote(lexicon).as_str());
    claims.append(",\"sub\":");
    claims.append(json_quote(user_did).as_str());
    claims.append("}");
    sign_jwt_with_kid(claims.as_str(), secret, kid)
}

/// A proof that is shown to an authorization server carries no `ath`, in
/// its claims or in its payload. One that is shown to a resource server
/// always carries one: the SHA-256 digest of the access token, in
/// base64url.
pub proof fn ath_binds_resource_requests(
    method: Seq<char>,
    url: UrlPartsView,
    access_token: Seq<char>,
    nonce: Option<Seq<char>>,
    jti: Seq<char>,
    iat: i64,
)
    ensures
        ({
            let shown = dpop_claims(
                ProofAudience::AuthorizationServer,
                method,
                url,
                access_token,
                nonce,
                jti,
                iat,
            );
            &&& shown.ath is None
            &&& dpop_payload_json(shown) == "{"@ + "\"htm\":"@ + json_quoted(shown.htm)
                + ",\"htu\":"@ + json_quoted(shown.htu) + ",\"iat\":"@ + int_decimal(iat as int)
                + ",\"jti\":"@ + json_quoted(jti) + nonce_member(nonce) + "}"@
        }),
        ({
            let bound = dpop_claims(
                ProofAudience::ResourceServer,
                method,
                url,
                access_token,
                nonce,
                jti,
                iat,
            );
            &&& bound.ath == Some(base64url(sha256(encode_utf8(access_token))))
            &&& dpop_payload_json(bound) == "{"@ + ("\"ath\":"@ + json_quoted(
                base64url(sha256(encode_utf8(access_token))),
            ) + ","@) + "\"htm\":"@ + json_quoted(bound.htm) + ",\"htu\":"@ + json_quoted(
                bound.htu,
            ) + ",\"iat\":"@ + int_decimal(iat as int) + ",\"jti\":"@ + json_quoted(jti)
                + nonce_member(nonce) + "}"@
        }),
{
    let shown = dpop_claims(
        ProofAudience::AuthorizationServer,
        method,
        url,
        access_token,
        nonce,
        jti,
        iat,
    );
    assert("{"@ + ath_member(shown.ath) =~= "{"@);
}

/// The `htu` of a proof is the scheme, the host and the path of the URL
/// the request goes to, and nothing else of it: whatever the audience, the
/// method, the token and the nonce, and whatever query the URL has.
pub proof fn htu_is_scheme_host_path(
    audience: ProofAudience,
    method: Seq<char>,
    url: UrlPartsView,
    access_token: Seq<char>,
    nonce: Option<Seq<char>>,
    jti: Seq<char>,
    iat: i64,
)
    ensures
        dpop_claims(audience, method, url, access_token, nonce, jti, iat).htu == url.scheme
            + "://"@ + written_host(url) + url.path,
{
}

} // verus!
