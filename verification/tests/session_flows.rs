use base64::engine::general_purpose::URL_SAFE_NO_PAD;
use base64::Engine;
use catbird::auth::auth_middleware;
use catbird::authserver::ClientIdentity;
use catbird::error::{AppError, ErrorKind};
use catbird::http::{Effect, FormPost, Header, Reply, Step};
use catbird::models::{CatbirdSession, DPoPKeyPair, EcPublicJwk, OAuthSessionRecord, TokenSet};
use catbird::refresh::{settle_with, Refresh, RefreshContext};
use catbird::revoke::Revoke;
use catbird::session::{SessionFlow, SessionService};
use catbird::stamp::Stamps;
use catbird::store::{Record, StoreCommand, StoreLayout};
use serde_json::Value;
use std::collections::BTreeMap;

const NOW: i64 = 1_700_000_000;

fn header(name: &str, value: &str) -> Header {
    Header { name: name.to_string(), value: value.to_string() }
}

fn key_pair() -> DPoPKeyPair {
    let scalar = [0x22u8; 32];
    let secret = p256::SecretKey::from_slice(&scalar).unwrap();
    let point = p256::elliptic_curve::sec1::ToEncodedPoint::to_encoded_point(
        &secret.public_key(),
        false,
    );
    DPoPKeyPair {
        public_jwk: EcPublicJwk {
            kty: "EC".to_string(),
            crv: "P-256".to_string(),
            x: URL_SAFE_NO_PAD.encode(point.x().unwrap()),
            y: URL_SAFE_NO_PAD.encode(point.y().unwrap()),
        },
        private_key_bytes: scalar,
    }
}

fn client() -> ClientIdentity {
    ClientIdentity {
        client_id: "https://gateway.example/oauth/client-metadata.json".to_string(),
        kid: "catbird-key-1".to_string(),
        secret: vec![0x33u8; 32],
    }
}

fn layout() -> StoreLayout {
    StoreLayout { key_prefix: "catbird:".to_string(), session_ttl_seconds: 604_800 }
}

fn service() -> SessionService {
    SessionService::new(client(), layout(), false)
}

fn session(id: &str, expires_at: i64) -> CatbirdSession {
    CatbirdSession {
        id: id.to_string(),
        did: "did:plc:alice".to_string(),
        handle: "alice.example".to_string(),
        pds_url: "https://pds.example.com".to_string(),
        access_token: format!("access-{}", id),
        refresh_token: format!("refresh-{}", id),
        access_token_expires_at: expires_at,
        created_at: NOW - 5_000,
        last_used_at: NOW - 100,
        dpop_jkt: Some("dpop".to_string()),
    }
}

fn record(id: &str) -> OAuthSessionRecord {
    OAuthSessionRecord {
        dpop_key_jwk: "{\"kty\":\"EC\"}".to_string(),
        token_set: TokenSet {
            iss: "https://as.example".to_string(),
            sub: "did:plc:alice".to_string(),
            aud: "https://pds.example.com".to_string(),
            scope: Some("atproto".to_string()),
            refresh_token: Some(format!("refresh-{}", id)),
            access_token: format!("access-{}", id),
            token_type: "DPoP".to_string(),
            expires_at: Some(NOW - 10),
        },
    }
}

fn stamps(now: i64, tag: &str) -> Stamps {
    Stamps { now, assertion_jti: format!("assertion-{}", tag), proof_jti: format!("proof-{}", tag) }
}

fn response(status: u16, headers: Vec<Header>, body: &str) -> Reply {
    Reply::Response { status, headers, body: body.to_string() }
}

fn payload_of(token: &str) -> Value {
    let pieces: Vec<&str> = token.split('.').collect();
    assert_eq!(pieces.len(), 3);
    serde_json::from_slice(&URL_SAFE_NO_PAD.decode(pieces[1]).unwrap()).unwrap()
}

fn form(body: &str) -> BTreeMap<String, String> {
    body.split('&')
        .map(|pair| {
            let (k, v) = pair.split_once('=').unwrap();
            (k.to_string(), urlencoding::decode(v).unwrap().into_owned())
        })
        .collect()
}

fn effect<M: std::fmt::Debug, T: std::fmt::Debug>(step: Step<M, T>) -> (M, Effect) {
    match step {
        Step::Do { next, effect } => (next, effect),
        other => panic!("expected an effect, got {:?}", other),
    }
}

fn outcome<M: std::fmt::Debug, T: std::fmt::Debug>(step: Step<M, T>) -> Result<T, AppError> {
    match step {
        Step::Done(r) => r,
        other => panic!("expected the end, got {:?}", other),
    }
}

fn get_url(e: Effect) -> String {
    match e {
        Effect::Get { url } => url,
        other => panic!("expected a fetch, got {:?}", other),
    }
}

fn posted(e: Effect) -> FormPost {
    match e {
        Effect::Post(p) => p,
        other => panic!("expected a post, got {:?}", other),
    }
}

fn stored(e: Effect) -> Vec<StoreCommand> {
    match e {
        Effect::Store(c) => c,
        other => panic!("expected store commands, got {:?}", other),
    }
}

fn apply(store: &mut BTreeMap<String, Record>, commands: Vec<StoreCommand>) {
    for c in commands {
        match c {
            StoreCommand::Put { key, record, .. } => {
                store.insert(key, record);
            },
            StoreCommand::Delete { key } => {
                store.remove(&key);
            },
        }
    }
}

fn store_of(id: &str) -> BTreeMap<String, Record> {
    let mut store = BTreeMap::new();
    store.insert(format!("catbird:catbird_session:{}", id), Record::Session(session(id, NOW - 10)));
    store.insert(format!("catbird:dpop_key:{}", id), Record::DpopKey(key_pair()));
    store.insert(format!("catbird:oauth_session:{}", id), Record::OAuthSession(record(id)));
    store
}

/// Drives a lookup of an expired session up to the first post to the token
/// endpoint.
fn lookup_to_first_post(id: &str) -> (SessionFlow, FormPost) {
    let (next, load) = effect(service().get_valid_session(Some(session(id, NOW - 10)), NOW));
    match load {
        Effect::Load { oauth_session_key, dpop_key } => {
            assert_eq!(oauth_session_key, format!("catbird:oauth_session:{}", id));
            assert_eq!(dpop_key, format!("catbird:dpop_key:{}", id));
        },
        other => panic!("expected a load, got {:?}", other),
    }
    let (next, fetch) = effect(next.advance(
        Reply::Material { record: Some(record(id)), key: Some(key_pair()) },
        &stamps(NOW, "0"),
    ));
    assert_eq!(get_url(fetch), "https://pds.example.com/.well-known/oauth-protected-resource");
    let (next, fetch) = effect(next.advance(
        response(200, vec![], "{\"authorization_servers\":[\"https://as.example\"]}"),
        &stamps(NOW, "1"),
    ));
    assert_eq!(get_url(fetch), "https://as.example/.well-known/oauth-authorization-server");
    let (next, post) = effect(next.advance(
        response(
            200,
            vec![],
            "{\"token_endpoint\":\"https://as.example/oauth/token\",\"revocation_endpoint\":\"https://as.example/oauth/revoke\"}",
        ),
        &stamps(NOW + 1, "2"),
    ));
    (next, posted(post))
}

#[test]
fn a_fresh_session_is_stamped_and_saved() {
    let (next, save) = effect(service().get_valid_session(Some(session("s1", NOW + 3_600)), NOW));
    let commands = stored(save);
    assert_eq!(commands.len(), 1);
    match &commands[0] {
        StoreCommand::Put { key, ttl_seconds, record: Record::Session(s) } => {
            assert_eq!(key, "catbird:catbird_session:s1");
            assert_eq!(*ttl_seconds, 604_800);
            assert_eq!(s.last_used_at, NOW);
            assert_eq!(s.access_token, "access-s1");
        },
        other => panic!("expected the session to be written, got {:?}", other),
    }
    let out = outcome(next.advance(Reply::Stored, &stamps(NOW, "x"))).unwrap();
    assert_eq!(out.id, "s1");
    assert_eq!(out.last_used_at, NOW);
    assert_eq!(out.created_at, NOW - 5_000);
    assert_eq!(out.access_token, "access-s1");
}

#[test]
fn refresh_is_due_a_minute_before_expiry() {
    let s = session("s1", NOW + 60);
    assert!(s.is_access_token_expired(NOW));
    assert!(s.needs_refresh(NOW));
    let s = session("s1", NOW + 61);
    assert!(!s.is_access_token_expired(NOW));
    assert!(!s.needs_refresh(NOW));
    let mut unbound = session("s1", NOW + 3_600);
    unbound.pds_url = String::new();
    assert!(!unbound.is_access_token_expired(NOW));
    assert!(unbound.needs_refresh(NOW));
    assert!(session("s1", i64::MAX).is_access_token_expired(i64::MAX));
}

#[test]
fn unknown_session_is_invalid_and_answered_with_401() {
    let e = outcome(service().get_valid_session(None, NOW)).unwrap_err();
    assert_eq!(e.kind(), ErrorKind::InvalidSession);
    assert_eq!(e.status_code(), 401);
    assert_eq!(e.error_type(), "invalid_session");
    assert_eq!(auth_middleware(Err(e)).unwrap_err(), 401);
}

#[test]
fn first_post_to_the_token_endpoint() {
    let (_, post) = lookup_to_first_post("A");
    assert_eq!(post.url, "https://as.example/oauth/token");
    let fields = form(&post.body);
    assert_eq!(fields.len(), 5);
    assert_eq!(fields["grant_type"], "refresh_token");
    assert_eq!(fields["refresh_token"], "refresh-A");
    assert_eq!(fields["client_id"], "https://gateway.example/oauth/client-metadata.json");
    assert_eq!(
        fields["client_assertion_type"],
        "urn:ietf:params:oauth:client-assertion-type:jwt-bearer"
    );
    assert!(post.body.starts_with(
        "grant_type=refresh_token&refresh_token=refresh-A&client_id=https%3A%2F%2Fgateway.example%2Foauth%2Fclient-metadata.json&client_assertion_type=urn%3Aietf%3Aparams%3Aoauth%3Aclient-assertion-type%3Ajwt-bearer&client_assertion="
    ));
    let assertion = payload_of(&fields["client_assertion"]);
    assert_eq!(assertion["iss"], "https://gateway.example/oauth/client-metadata.json");
    assert_eq!(assertion["aud"], "https://as.example");
    assert_eq!(assertion["jti"], "assertion-2");
    assert_eq!(assertion["iat"], NOW + 1);
    assert_eq!(assertion["exp"], NOW + 301);
    let proof = payload_of(&post.dpop);
    assert_eq!(proof["htm"], "POST");
    assert_eq!(proof["htu"], "https://as.example/oauth/token");
    assert_eq!(proof["jti"], "proof-2");
    assert!(proof.get("ath").is_none());
    assert!(proof.get("nonce").is_none());
}

#[test]
fn refresh_keeps_identity_and_takes_new_tokens() {
    let (next, _) = lookup_to_first_post("A");
    let (next, store) = effect(next.advance(
        response(
            200,
            vec![header("DPoP-Nonce", "ignored-on-success")],
            "{\"access_token\":\"new-at\",\"refresh_token\":\"new-rt\",\"expires_in\":1800,\"token_type\":\"DPoP\"}",
        ),
        &stamps(NOW + 2, "3"),
    ));
    let commands = stored(store);
    assert_eq!(commands.len(), 1);
    match &commands[0] {
        StoreCommand::Put { key, ttl_seconds, record: Record::OAuthSession(r) } => {
            assert_eq!(key, "catbird:oauth_session:A");
            assert_eq!(*ttl_seconds, 604_800);
            assert_eq!(r.token_set.access_token, "new-at");
            assert_eq!(r.token_set.refresh_token.as_deref(), Some("new-rt"));
            assert_eq!(r.token_set.expires_at, Some(NOW + 2 + 1800));
            assert_eq!(r.token_set.iss, "https://as.example");
            assert_eq!(r.token_set.sub, "did:plc:alice");
            assert_eq!(r.dpop_key_jwk, "{\"kty\":\"EC\"}");
        },
        other => panic!("expected the OAuth record to be written, got {:?}", other),
    }
    let (next, save) = effect(next.advance(Reply::Stored, &stamps(NOW + 3, "4")));
    let commands = stored(save);
    assert_eq!(commands.len(), 1);
    match &commands[0] {
        StoreCommand::Put { key, record: Record::Session(s), .. } => {
            assert_eq!(key, "catbird:catbird_session:A");
            assert_eq!(s.access_token, "new-at");
        },
        other => panic!("expected the session to be written, got {:?}", other),
    }
    let out = outcome(next.advance(Reply::Stored, &stamps(NOW + 4, "5"))).unwrap();
    assert_eq!(out.id, "A");
    assert_eq!(out.did, "did:plc:alice");
    assert_eq!(out.handle, "alice.example");
    assert_eq!(out.created_at, NOW - 5_000);
    assert_eq!(out.pds_url, "https://pds.example.com");
    assert_eq!(out.access_token, "new-at");
    assert_eq!(out.refresh_token, "new-rt");
    assert_eq!(out.access_token_expires_at, NOW + 2 + 1800);
    assert_eq!(out.last_used_at, NOW + 2);
    assert_eq!(out.dpop_jkt.as_deref(), Some("dpop"));
}

#[test]
fn refresh_token_and_lifetime_default_when_not_named() {
    let (next, _) = lookup_to_first_post("A");
    let (next, store) = effect(next.advance(
        response(200, vec![], "{\"access_token\":\"new-at\"}"),
        &stamps(NOW + 2, "3"),
    ));
    match &stored(store)[0] {
        StoreCommand::Put { record: Record::OAuthSession(r), .. } => {
            assert_eq!(r.token_set.refresh_token.as_deref(), Some("refresh-A"));
            assert_eq!(r.token_set.expires_at, Some(NOW + 2 + 3600));
        },
        other => panic!("expected the OAuth record to be written, got {:?}", other),
    }
    let (next, _) = effect(next.advance(Reply::Stored, &stamps(NOW + 3, "4")));
    let out = outcome(next.advance(Reply::Stored, &stamps(NOW + 4, "5"))).unwrap();
    assert_eq!(out.refresh_token, "refresh-A");
    assert_eq!(out.access_token_expires_at, NOW + 2 + 3600);
}

#[test]
fn token_endpoint_nonce_challenge_is_answered_once() {
    let (next, first) = lookup_to_first_post("A");
    let (next, retry) = effect(next.advance(
        response(400, vec![header("DPoP-Nonce", "n1")], "{\"error\":\"use_dpop_nonce\"}"),
        &stamps(NOW + 2, "retry"),
    ));
    let second = posted(retry);
    assert_eq!(second.url, first.url);
    let proof = payload_of(&second.dpop);
    assert_eq!(proof["nonce"], "n1");
    assert_eq!(proof["jti"], "proof-retry");
    assert!(proof.get("ath").is_none());
    let fields = form(&second.body);
    assert_eq!(fields["refresh_token"], "refresh-A");
    assert_eq!(payload_of(&fields["client_assertion"])["jti"], "assertion-retry");
    // a second challenge is not answered: the refresh fails
    let e = outcome(next.advance(
        response(400, vec![header("DPoP-Nonce", "n2")], "{\"error\":\"use_dpop_nonce\"}"),
        &stamps(NOW + 3, "x"),
    ))
    .unwrap_err();
    assert_eq!(e.kind(), ErrorKind::OAuth);
    assert_eq!(e.status_code(), 400);
    assert_eq!(
        e.detail(),
        "Token refresh failed with status 400: {\"error\":\"use_dpop_nonce\"}"
    );
}

#[test]
fn unauthorized_with_nonce_is_a_challenge_too() {
    let (next, _) = lookup_to_first_post("A");
    let (_, retry) = effect(next.advance(
        response(401, vec![header("dpop-nonce", "n9")], ""),
        &stamps(NOW + 2, "retry"),
    ));
    assert_eq!(payload_of(&posted(retry).dpop)["nonce"], "n9");
}

#[test]
fn rejected_grant_ends_the_session() {
    let mut store = store_of("A");
    store.extend(store_of("B"));
    let (next, _) = lookup_to_first_post("A");
    let (next, clear) = effect(next.advance(
        response(400, vec![], "{\"error\":\"invalid_grant\",\"error_description\":\"revoked\"}"),
        &stamps(NOW + 2, "3"),
    ));
    let commands = stored(clear);
    assert_eq!(commands.len(), 3);
    apply(&mut store, commands);
    assert!(!store.contains_key("catbird:catbird_session:A"));
    assert!(!store.contains_key("catbird:dpop_key:A"));
    assert!(!store.contains_key("catbird:oauth_session:A"));
    assert_eq!(store.len(), 3);
    assert!(store.contains_key("catbird:oauth_session:B"));
    let e = outcome(next.advance(Reply::Stored, &stamps(NOW + 3, "4"))).unwrap_err();
    assert_eq!(e.kind(), ErrorKind::TokenRefresh);
    assert_eq!(e.status_code(), 401);
    assert_eq!(e.error_type(), "token_refresh_failed");
    assert_eq!(e.message(), "Session expired. Please log in again.");
    // the session is gone: the next lookup finds nothing
    let e = outcome(service().get_valid_session(None, NOW + 10)).unwrap_err();
    assert_eq!(auth_middleware(Err(e)).unwrap_err(), 401);
}

#[test]
fn rejected_grant_is_recognised_in_either_spelling() {
    for body in ["InvalidGrant: token was rotated", "error=invalid_grant"] {
        let (next, _) = lookup_to_first_post("A");
        let (_, clear) = effect(next.advance(response(401, vec![], body), &stamps(NOW, "3")));
        assert_eq!(stored(clear).len(), 3);
    }
    for body in ["INVALID_GRANT", "invalid grant", ""] {
        let (next, _) = lookup_to_first_post("A");
        let e = outcome(next.advance(response(403, vec![], body), &stamps(NOW, "3"))).unwrap_err();
        assert_eq!(e.kind(), ErrorKind::OAuth);
    }
}

#[test]
fn two_devices_of_one_user_refresh_on_their_own() {
    let mut store = store_of("A");
    store.extend(store_of("B"));
    for id in ["A", "B"] {
        let (next, post) = lookup_to_first_post(id);
        assert_eq!(form(&post.body)["refresh_token"], format!("refresh-{}", id));
        let body = format!("{{\"access_token\":\"at2-{}\",\"refresh_token\":\"rt2-{}\"}}", id, id);
        let (next, write) = effect(next.advance(response(200, vec![], &body), &stamps(NOW, id)));
        apply(&mut store, stored(write));
        let (next, save) = effect(next.advance(Reply::Stored, &stamps(NOW, id)));
        apply(&mut store, stored(save));
        let out = outcome(next.advance(Reply::Stored, &stamps(NOW, id))).unwrap();
        assert_eq!(out.refresh_token, format!("rt2-{}", id));
    }
    assert_eq!(store.len(), 6);
    for id in ["A", "B"] {
        match &store[&format!("catbird:oauth_session:{}", id)] {
            Record::OAuthSession(r) => {
                assert_eq!(r.token_set.refresh_token, Some(format!("rt2-{}", id)));
                assert_eq!(r.token_set.access_token, format!("at2-{}", id));
            },
            other => panic!("expected an OAuth record, got {:?}", other),
        }
        match &store[&format!("catbird:catbird_session:{}", id)] {
            Record::Session(s) => {
                assert_eq!(s.id, id);
                assert_eq!(s.did, "did:plc:alice");
                assert_eq!(s.refresh_token, format!("rt2-{}", id));
            },
            other => panic!("expected a session, got {:?}", other),
        }
    }
}

#[test]
fn refresh_fails_without_what_it_needs() {
    let begin = |record: Option<OAuthSessionRecord>, key: Option<DPoPKeyPair>| {
        let (next, _) = effect(service().get_valid_session(Some(session("A", NOW - 10)), NOW));
        outcome(next.advance(Reply::Material { record, key }, &stamps(NOW, "0"))).unwrap_err()
    };
    assert_eq!(begin(None, Some(key_pair())).kind(), ErrorKind::Internal);
    assert_eq!(begin(Some(record("A")), None).kind(), ErrorKind::Internal);
    let mut without_token = record("A");
    without_token.token_set.refresh_token = None;
    let e = begin(Some(without_token), Some(key_pair()));
    assert_eq!(e.kind(), ErrorKind::OAuth);
    assert_eq!(e.detail(), "No refresh token in session");
    let (next, _) = effect(service().get_valid_session(Some(session("A", NOW - 10)), NOW));
    let e = outcome(next.advance(Reply::Failed("store down".to_string()), &stamps(NOW, "0")))
        .unwrap_err();
    assert_eq!(e.kind(), ErrorKind::Redis);
    assert_eq!(e.status_code(), 500);
    assert_eq!(e.message(), "An internal error occurred");
}

#[test]
fn refresh_does_not_reach_into_private_networks() {
    let mut s = session("A", NOW - 10);
    s.pds_url = "https://192.168.1.10".to_string();
    let e = outcome(Refresh::begin(s, Some(record("A")), Some(key_pair()), client(), layout(), false))
        .unwrap_err();
    assert_eq!(e.kind(), ErrorKind::BadRequest);
    // an authorization server in a private network is refused as well
    let (next, _) = effect(Refresh::begin(
        session("A", NOW - 10),
        Some(record("A")),
        Some(key_pair()),
        client(),
        layout(),
        false,
    ));
    let e = outcome(next.advance(
        response(200, vec![], "{\"authorization_servers\":[\"https://10.0.0.5\"]}"),
        &stamps(NOW, "1"),
    ))
    .unwrap_err();
    assert_eq!(e.kind(), ErrorKind::BadRequest);
    // and so is a token endpoint
    let (next, _) = effect(Refresh::begin(
        session("A", NOW - 10),
        Some(record("A")),
        Some(key_pair()),
        client(),
        layout(),
        false,
    ));
    let (next, _) = effect(next.advance(
        response(200, vec![], "{\"authorization_servers\":[\"https://as.example\"]}"),
        &stamps(NOW, "1"),
    ));
    let e = outcome(next.advance(
        response(200, vec![], "{\"token_endpoint\":\"http://169.254.169.254/token\"}"),
        &stamps(NOW, "2"),
    ))
    .unwrap_err();
    assert_eq!(e.kind(), ErrorKind::BadRequest);
}

#[test]
fn a_session_without_pds_is_bound_to_the_audience_of_its_tokens() {
    let mut s = session("A", NOW + 3_600);
    s.pds_url = String::new();
    let (next, fetch) = effect(Refresh::begin(
        s,
        Some(record("A")),
        Some(key_pair()),
        client(),
        layout(),
        false,
    ));
    assert_eq!(get_url(fetch), "https://pds.example.com/.well-known/oauth-protected-resource");
    let (next, _) = effect(next.advance(
        response(200, vec![], "{\"authorization_servers\":[\"https://as.example\"]}"),
        &stamps(NOW, "1"),
    ));
    let (next, _) = effect(next.advance(
        response(200, vec![], "{\"token_endpoint\":\"https://as.example/oauth/token\"}"),
        &stamps(NOW, "2"),
    ));
    let (next, _) = effect(next.advance(
        response(200, vec![], "{\"access_token\":\"new-at\"}"),
        &stamps(NOW, "3"),
    ));
    let out = outcome(next.advance(Reply::Stored, &stamps(NOW, "4"))).unwrap();
    assert_eq!(out.pds_url, "https://pds.example.com");
}

#[test]
fn answers_that_cannot_be_read_fail_the_refresh() {
    let (next, _) = lookup_to_first_post("A");
    let e = outcome(next.advance(response(200, vec![], "<html>"), &stamps(NOW, "3"))).unwrap_err();
    assert_eq!(e.kind(), ErrorKind::HttpClient);
    let (next, _) = lookup_to_first_post("A");
    let e = outcome(next.advance(response(200, vec![], "{\"refresh_token\":\"x\"}"), &stamps(NOW, "3")))
        .unwrap_err();
    assert_eq!(e.kind(), ErrorKind::OAuth);
    let (next, _) = lookup_to_first_post("A");
    let e = outcome(next.advance(Reply::Failed("timeout".to_string()), &stamps(NOW, "3")))
        .unwrap_err();
    assert_eq!(e.kind(), ErrorKind::HttpClient);
    let (next, _) = lookup_to_first_post("A");
    let e = outcome(next.advance(Reply::Stored, &stamps(NOW, "3"))).unwrap_err();
    assert_eq!(e.kind(), ErrorKind::Internal);
}

#[test]
fn settling_an_answer_from_what_was_read_in_it() {
    let ctx = || RefreshContext {
        session: session("A", NOW - 10),
        record: record("A"),
        refresh_token: "refresh-A".to_string(),
        key: key_pair(),
        client: client(),
        layout: layout(),
    };
    let (next, store) = effect(settle_with(
        ctx(),
        200,
        "ignored",
        true,
        Some("at".to_string()),
        None,
        Some(i64::MAX),
        NOW,
    ));
    assert_eq!(stored(store).len(), 1);
    match next {
        Refresh::Storing { session } => {
            assert_eq!(session.access_token, "at");
            assert_eq!(session.refresh_token, "refresh-A");
            assert_eq!(session.access_token_expires_at, i64::MAX);
            assert_eq!(session.last_used_at, NOW);
        },
        other => panic!("expected the new tokens to be stored, got {:?}", other),
    }
    let e = outcome(settle_with(ctx(), 200, "", false, Some("at".to_string()), None, None, NOW))
        .unwrap_err();
    assert_eq!(e.kind(), ErrorKind::HttpClient);
    let e = outcome(settle_with(ctx(), 204, "", true, None, Some("rt".to_string()), None, NOW))
        .unwrap_err();
    assert_eq!(e.kind(), ErrorKind::OAuth);
    let e = outcome(settle_with(ctx(), 500, "oops", true, Some("at".to_string()), None, None, NOW))
        .unwrap_err();
    assert_eq!(e.kind(), ErrorKind::OAuth);
    assert_eq!(e.detail(), "Token refresh failed with status 500: oops");
    let (next, clear) = effect(settle_with(ctx(), 400, "invalid_grant", false, None, None, None, NOW));
    assert!(matches!(next, Refresh::Clearing));
    assert_eq!(stored(clear).len(), 3);
}

fn revoke_to_post(s: CatbirdSession) -> (Revoke, FormPost) {
    let (next, fetch) = effect(service().revoke_session(s, Some(key_pair())));
    assert_eq!(get_url(fetch), "https://pds.example.com/.well-known/oauth-protected-resource");
    let (next, fetch) = effect(next.advance(
        response(200, vec![], "{\"authorization_servers\":[\"https://as.example\"]}"),
        &stamps(NOW, "1"),
    ));
    assert_eq!(get_url(fetch), "https://as.example/.well-known/oauth-authorization-server");
    let (next, post) = effect(next.advance(
        response(
            200,
            vec![],
            "{\"token_endpoint\":\"https://as.example/oauth/token\",\"revocation_endpoint\":\"https://as.example/oauth/revoke\"}",
        ),
        &stamps(NOW, "2"),
    ));
    (next, posted(post))
}

fn deleted_keys(commands: &Vec<StoreCommand>) -> Vec<String> {
    commands
        .iter()
        .map(|c| match c {
            StoreCommand::Delete { key } => key.clone(),
            other => panic!("expected a deletion, got {:?}", other),
        })
        .collect()
}

#[test]
fn logout_revokes_the_refresh_token_and_clears_the_session() {
    let mut store = store_of("A");
    let (next, post) = revoke_to_post(session("A", NOW + 100));
    assert_eq!(post.url, "https://as.example/oauth/revoke");
    let fields = form(&post.body);
    assert_eq!(fields.len(), 4);
    assert_eq!(fields["token"], "refresh-A");
    assert_eq!(fields["client_id"], "https://gateway.example/oauth/client-metadata.json");
    assert!(post.body.starts_with("token=refresh-A&client_id="));
    assert_eq!(payload_of(&fields["client_assertion"])["aud"], "https://as.example");
    let proof = payload_of(&post.dpop);
    assert_eq!(proof["htu"], "https://as.example/oauth/revoke");
    assert!(proof.get("ath").is_none());
    let (next, clear) = effect(next.advance(response(200, vec![], ""), &stamps(NOW, "3")));
    let commands = stored(clear);
    assert_eq!(
        deleted_keys(&commands),
        vec![
            "catbird:catbird_session:A".to_string(),
            "catbird:dpop_key:A".to_string(),
            "catbird:oauth_session:A".to_string(),
        ]
    );
    apply(&mut store, commands);
    assert!(store.is_empty());
    assert_eq!(outcome(next.advance(Reply::Stored, &stamps(NOW, "4"))).unwrap(), true);
}

#[test]
fn access_token_is_revoked_where_there_is_no_refresh_token() {
    let mut s = session("A", NOW + 100);
    s.refresh_token = String::new();
    let (_, post) = revoke_to_post(s);
    assert_eq!(form(&post.body)["token"], "access-A");
}

#[test]
fn the_session_is_cleared_whatever_the_server_answers() {
    for (status, revoked) in [(200u16, true), (204, true), (400, false), (401, false), (500, false)] {
        let (next, _) = revoke_to_post(session("A", NOW + 100));
        let (next, clear) = effect(next.advance(response(status, vec![], "{}"), &stamps(NOW, "3")));
        assert_eq!(deleted_keys(&stored(clear)).len(), 3);
        assert_eq!(outcome(next.advance(Reply::Stored, &stamps(NOW, "4"))).unwrap(), revoked);
    }
    // the request fails
    let (next, _) = revoke_to_post(session("A", NOW + 100));
    let (next, clear) = effect(next.advance(Reply::Failed("timeout".to_string()), &stamps(NOW, "3")));
    assert_eq!(deleted_keys(&stored(clear)).len(), 3);
    // even a store that fails does not fail the logout
    assert_eq!(outcome(next.advance(Reply::Failed("down".to_string()), &stamps(NOW, "4"))).unwrap(), false);
}

#[test]
fn the_session_is_cleared_where_the_server_cannot_be_asked() {
    // no DPoP key
    let (next, clear) = effect(service().revoke_session(session("A", NOW), None));
    assert_eq!(deleted_keys(&stored(clear)).len(), 3);
    assert_eq!(outcome(next.advance(Reply::Stored, &stamps(NOW, "1"))).unwrap(), false);
    // a PDS that is refused
    let mut s = session("A", NOW);
    s.pds_url = "http://169.254.169.254/meta".to_string();
    let (next, clear) = effect(service().revoke_session(s, Some(key_pair())));
    assert_eq!(deleted_keys(&stored(clear)).len(), 3);
    assert!(matches!(next, Revoke::Clearing { revoked: false }));
    // no metadata
    let (next, _) = effect(service().revoke_session(session("A", NOW), Some(key_pair())));
    let (_, clear) = effect(next.advance(response(404, vec![], "not found"), &stamps(NOW, "1")));
    assert_eq!(deleted_keys(&stored(clear)).len(), 3);
    // no revocation endpoint
    let (next, _) = effect(service().revoke_session(session("A", NOW), Some(key_pair())));
    let (next, _) = effect(next.advance(
        response(200, vec![], "{\"authorization_servers\":[\"https://as.example\"]}"),
        &stamps(NOW, "1"),
    ));
    let (_, clear) = effect(next.advance(
        response(200, vec![], "{\"token_endpoint\":\"https://as.example/oauth/token\"}"),
        &stamps(NOW, "2"),
    ));
    assert_eq!(deleted_keys(&stored(clear)).len(), 3);
}

#[test]
fn revocation_answers_one_nonce_challenge() {
    let (next, _) = revoke_to_post(session("A", NOW + 100));
    let (next, retry) = effect(next.advance(
        response(400, vec![header("DPoP-Nonce", "rn")], "{\"error\":\"use_dpop_nonce\"}"),
        &stamps(NOW, "r"),
    ));
    let second = posted(retry);
    assert_eq!(payload_of(&second.dpop)["nonce"], "rn");
    assert_eq!(form(&second.body)["token"], "refresh-A");
    let (next, clear) = effect(next.advance(
        response(400, vec![header("DPoP-Nonce", "rn2")], "{\"error\":\"use_dpop_nonce\"}"),
        &stamps(NOW, "r2"),
    ));
    assert_eq!(deleted_keys(&stored(clear)).len(), 3);
    assert_eq!(outcome(next.advance(Reply::Stored, &stamps(NOW, "4"))).unwrap(), false);
    // a 401 is no challenge for a revocation
    let (next, _) = revoke_to_post(session("A", NOW + 100));
    let (_, clear) = effect(next.advance(
        response(401, vec![header("DPoP-Nonce", "rn")], ""),
        &stamps(NOW, "r"),
    ));
    assert_eq!(deleted_keys(&stored(clear)).len(), 3);
}

#[test]
fn service_commands_use_the_configured_prefix() {
    let s = service();
    assert_eq!(s.get_session("abc"), "catbird:catbird_session:abc");
    match s.save_session(&session("abc", NOW)) {
        StoreCommand::Put { key, ttl_seconds, record: Record::Session(r) } => {
            assert_eq!(key, "catbird:catbird_session:abc");
            assert_eq!(ttl_seconds, 604_800);
            assert_eq!(r.id, "abc");
        },
        other => panic!("expected a write, got {:?}", other),
    }
    match s.delete_session("abc") {
        StoreCommand::Delete { key } => assert_eq!(key, "catbird:catbird_session:abc"),
        other => panic!("expected a deletion, got {:?}", other),
    }
    assert_eq!(
        deleted_keys(&s.clear_session_data("abc")),
        vec![
            "catbird:catbird_session:abc".to_string(),
            "catbird:dpop_key:abc".to_string(),
            "catbird:oauth_session:abc".to_string(),
        ]
    );
}
