use base64::engine::general_purpose::URL_SAFE_NO_PAD;
use base64::Engine;
use catbird::config::{
    default_host, default_key_prefix, default_mls_service_did, default_port, default_redis_url,
    default_scopes, default_session_ttl, AppConfig, MlsConfig, OAuthConfig, RedisConfig,
    ServerConfig,
};
use catbird::error::ErrorKind;
use catbird::keys::{KeyStore, SigningKey};
use catbird::models::{OAuthSessionRecord, TokenSet};
use catbird::oauth::{
    client_metadata, create_oauth_client, dpop_key_pair_from_jwk, dpop_key_pair_from_parts,
    login, login_scopes, logout, oauth_callback, parse_scope, private_jwk, removal_cookie,
    session_cookie, RedisSessionStore, RedisStateStore, Scope,
};
use catbird::models::EcPublicJwk;
use catbird::store::{Record, StoreCommand, StoreLayout};
use std::collections::BTreeMap;

const NOW: i64 = 1_700_000_000;

fn scalar() -> Vec<u8> {
    (1..=32).collect()
}

fn coordinates() -> (String, String) {
    let key = p256::SecretKey::from_slice(&scalar()).unwrap();
    let point =
        p256::elliptic_curve::sec1::ToEncodedPoint::to_encoded_point(&key.public_key(), false);
    (URL_SAFE_NO_PAD.encode(point.x().unwrap()), URL_SAFE_NO_PAD.encode(point.y().unwrap()))
}

fn private_jwk_text() -> String {
    let (x, y) = coordinates();
    format!(
        "{{\"kty\":\"EC\",\"crv\":\"P-256\",\"x\":\"{}\",\"y\":\"{}\",\"d\":\"{}\"}}",
        x,
        y,
        URL_SAFE_NO_PAD.encode(scalar())
    )
}

fn record(expires_at: Option<i64>, refresh_token: Option<&str>) -> OAuthSessionRecord {
    OAuthSessionRecord {
        dpop_key_jwk: private_jwk_text(),
        token_set: TokenSet {
            iss: "https://as.example".to_string(),
            sub: "did:plc:alice".to_string(),
            aud: "https://pds.example.com".to_string(),
            scope: Some("atproto transition:generic".to_string()),
            refresh_token: refresh_token.map(str::to_string),
            access_token: "access-1".to_string(),
            token_type: "DPoP".to_string(),
            expires_at,
        },
    }
}

fn layout() -> StoreLayout {
    StoreLayout { key_prefix: "catbird:".to_string(), session_ttl_seconds: 86_400 }
}

fn config() -> AppConfig {
    AppConfig {
        server: ServerConfig {
            host: default_host(),
            port: default_port(),
            base_url: "https://api.catbird.blue".to_string(),
        },
        redis: RedisConfig {
            url: default_redis_url(),
            key_prefix: default_key_prefix(),
            session_ttl_seconds: default_session_ttl(),
        },
        oauth: OAuthConfig {
            client_id: "https://api.catbird.blue/oauth/client-metadata.json".to_string(),
            private_key_path: None,
            private_key_base64: None,
            private_key_paths: Vec::new(),
            active_key_id: "catbird-key-1".to_string(),
            redirect_uri: "https://api.catbird.blue/auth/callback".to_string(),
            scopes: vec!["atproto".to_string(), "transition:generic".to_string(), "custom:x".to_string()],
        },
        mls: MlsConfig::unset(),
    }
}

#[test]
fn callback_creates_the_session_and_its_three_records() {
    let id = "0b0e5f65-7f0b-4a53-8a6f-7a2b0c6d9e11";
    let login = oauth_callback(
        Some("did:plc:alice".to_string()),
        record(Some(NOW + 900), Some("refresh-1")),
        id.to_string(),
        NOW,
        &layout(),
    )
    .unwrap();
    assert_eq!(login.redirect, format!("https://catbird.blue/oauth/callback#session_id={}", id));
    assert_eq!(login.cookie.name, "catbird_session");
    assert_eq!(login.cookie.value, id);
    assert_eq!(login.cookie.path, "/");
    assert!(login.cookie.http_only && login.cookie.secure && login.cookie.same_site_strict);
    assert_eq!(login.cookie.max_age_seconds, 2_592_000);
    assert_eq!(login.session.id, id);
    assert_eq!(login.session.did, "did:plc:alice");
    assert_eq!(login.session.handle, "did:plc:alice");
    assert_eq!(login.session.pds_url, "https://pds.example.com");
    assert_eq!(login.session.access_token, "access-1");
    assert_eq!(login.session.refresh_token, "refresh-1");
    assert_eq!(login.session.access_token_expires_at, NOW + 900);
    assert_eq!(login.session.created_at, NOW);
    assert_eq!(login.session.last_used_at, NOW);
    assert!(login.session.dpop_jkt.is_some());

    let mut store: BTreeMap<String, Record> = BTreeMap::new();
    store.insert("catbird:catbird_session:other".to_string(), Record::Session(login.session.duplicate()));
    assert_eq!(login.commands.len(), 3);
    for c in login.commands {
        match c {
            StoreCommand::Put { key, ttl_seconds, record } => {
                assert_eq!(ttl_seconds, 86_400);
                store.insert(key, record);
            },
            other => panic!("expected a write, got {:?}", other),
        }
    }
    assert_eq!(store.len(), 4);
    match &store[&format!("catbird:catbird_session:{}", id)] {
        Record::Session(s) => {
            assert_eq!(s.id, id);
            assert_eq!(s.did, "did:plc:alice");
        },
        other => panic!("expected a session, got {:?}", other),
    }
    match &store[&format!("catbird:dpop_key:{}", id)] {
        Record::DpopKey(pair) => {
            assert_eq!(pair.private_key_bytes.to_vec(), scalar());
            assert_eq!(pair.public_jwk.x, coordinates().0);
            assert_eq!(pair.public_jwk.y, coordinates().1);
            assert_eq!(pair.public_jwk.kty, "EC");
            assert_eq!(pair.public_jwk.crv, "P-256");
        },
        other => panic!("expected a key pair, got {:?}", other),
    }
    match &store[&format!("catbird:oauth_session:{}", id)] {
        Record::OAuthSession(r) => {
            assert_eq!(r.token_set.refresh_token.as_deref(), Some("refresh-1"));
            assert_eq!(r.token_set.sub, "did:plc:alice");
            assert_eq!(r.dpop_key_jwk, private_jwk_text());
        },
        other => panic!("expected an OAuth record, got {:?}", other),
    }
}

#[test]
fn callback_assumes_an_hour_where_no_expiry_is_known() {
    let login = oauth_callback(
        Some("did:plc:alice".to_string()),
        record(None, None),
        "s1".to_string(),
        NOW,
        &layout(),
    )
    .unwrap();
    assert_eq!(login.session.access_token_expires_at, NOW + 3600);
    assert_eq!(login.session.refresh_token, "");
    let late = oauth_callback(
        Some("did:plc:alice".to_string()),
        record(None, None),
        "s1".to_string(),
        i64::MAX - 10,
        &layout(),
    )
    .unwrap();
    assert_eq!(late.session.access_token_expires_at, i64::MAX);
}

#[test]
fn callback_without_subject_or_key_fails() {
    let e = oauth_callback(None, record(None, None), "s1".to_string(), NOW, &layout()).unwrap_err();
    assert_eq!(e.kind(), ErrorKind::OAuth);
    assert_eq!(e.status_code(), 400);
    let mut broken = record(None, None);
    broken.dpop_key_jwk = "{\"kty\":\"EC\"}".to_string();
    let e = oauth_callback(Some("did:plc:a".to_string()), broken, "s1".to_string(), NOW, &layout())
        .unwrap_err();
    assert_eq!(e.kind(), ErrorKind::Internal);
}

#[test]
fn dpop_key_is_read_from_its_private_jwk() {
    let pair = dpop_key_pair_from_jwk(&private_jwk_text()).unwrap();
    assert_eq!(pair.private_key_bytes.to_vec(), scalar());
    assert_eq!(pair.public_jwk.x, coordinates().0);
    for broken in [
        "not json",
        "[]",
        "{}",
        "{\"d\":5}",
        "{\"d\":\"***\"}",
        "{\"d\":\"AQID\"}",
        "{\"d\":\"AQIDBAUGBwgJCgsMDQ4PEBESExQVFhcYGRobHB0eHyAh\"}",
    ] {
        let e = dpop_key_pair_from_jwk(broken).unwrap_err();
        assert_eq!(e.kind(), ErrorKind::Internal, "{}", broken);
    }
    let bare = dpop_key_pair_from_jwk("{\"d\":\"AQIDBAUGBwgJCgsMDQ4PEBESExQVFhcYGRobHB0eHyA\"}").unwrap();
    assert_eq!(bare.private_key_bytes.to_vec(), scalar());
    assert_eq!(bare.public_jwk.kty, "");
    assert_eq!(bare.public_jwk.x, "");
}

#[test]
fn dpop_key_is_made_of_scalar_and_public_jwk() {
    let jwk = || EcPublicJwk {
        kty: "EC".to_string(),
        crv: "P-256".to_string(),
        x: "x".to_string(),
        y: "y".to_string(),
    };
    let pair = dpop_key_pair_from_parts(Some(scalar()), jwk()).unwrap();
    assert_eq!(pair.private_key_bytes.to_vec(), scalar());
    assert_eq!(pair.public_jwk.y, "y");
    assert_eq!(dpop_key_pair_from_parts(None, jwk()).unwrap_err().kind(), ErrorKind::Internal);
    assert_eq!(dpop_key_pair_from_parts(Some(vec![1; 31]), jwk()).unwrap_err().kind(), ErrorKind::Internal);
    assert_eq!(dpop_key_pair_from_parts(Some(vec![1; 33]), jwk()).unwrap_err().kind(), ErrorKind::Internal);
    assert_eq!(dpop_key_pair_from_parts(Some(Vec::new()), jwk()).unwrap_err().kind(), ErrorKind::Internal);
}

#[test]
fn login_is_for_identifier_then_pds_then_issuer() {
    let s = |t: &str| Some(t.to_string());
    assert_eq!(login(s("alice.example"), s("https://pds"), s("https://as")).unwrap(), "alice.example");
    assert_eq!(login(None, s("https://pds"), s("https://as")).unwrap(), "https://pds");
    assert_eq!(login(None, None, s("https://as")).unwrap(), "https://as");
    let e = login(None, None, None).unwrap_err();
    assert_eq!(e.kind(), ErrorKind::BadRequest);
    assert_eq!(e.status_code(), 400);
    assert_eq!(e.message(), "Missing identifier");
}

#[test]
fn scopes_by_name() {
    assert!(matches!(parse_scope("atproto"), Scope::Atproto));
    assert!(matches!(parse_scope("transition:generic"), Scope::TransitionGeneric));
    assert!(matches!(parse_scope("transition:chat.bsky"), Scope::TransitionChatBsky));
    match parse_scope("Atproto") {
        Scope::Unknown(name) => assert_eq!(name, "Atproto"),
        other => panic!("expected an unknown scope, got {:?}", other),
    }
    let scopes = login_scopes();
    assert_eq!(scopes.len(), 3);
    assert!(matches!(scopes[0], Scope::Atproto));
    assert!(matches!(scopes[1], Scope::TransitionGeneric));
    assert!(matches!(scopes[2], Scope::TransitionChatBsky));
}

#[test]
fn cookies_of_login_and_logout() {
    let set = session_cookie("abc");
    assert_eq!(set.name, "catbird_session");
    assert_eq!(set.value, "abc");
    assert_eq!(set.path, "/");
    assert!(set.http_only && set.secure && set.same_site_strict);
    assert_eq!(set.max_age_seconds, 2_592_000);
    let gone = removal_cookie();
    assert_eq!(gone.name, "catbird_session");
    assert_eq!(gone.value, "");
    assert_eq!(gone.path, "/");
    assert!(gone.http_only);
    assert!(!gone.secure);
    assert!(!gone.same_site_strict);
    assert_eq!(gone.max_age_seconds, 0);
    let told = logout();
    assert!(told.success);
    assert_eq!(told.message, "Logged out");
}

#[test]
fn client_metadata_of_the_configuration() {
    let m = client_metadata(&config());
    assert_eq!(m.client_id, "https://api.catbird.blue/oauth/client-metadata.json");
    assert_eq!(m.client_uri, "https://api.catbird.blue");
    assert_eq!(m.redirect_uris, vec!["https://api.catbird.blue/auth/callback".to_string()]);
    assert_eq!(m.jwks_uri, "https://api.catbird.blue/.well-known/jwks.json");
    assert_eq!(m.scopes.len(), 3);
    assert!(matches!(m.scopes[0], Scope::Atproto));
    assert!(matches!(m.scopes[1], Scope::TransitionGeneric));
    assert!(matches!(&m.scopes[2], Scope::Unknown(s) if s == "custom:x"));
}

#[test]
fn oauth_client_holds_every_key_as_private_jwk() {
    let keys = vec![
        SigningKey { kid: "catbird-key-1".to_string(), secret_key: scalar() },
        SigningKey { kid: "catbird-key-2".to_string(), secret_key: vec![9u8; 32] },
    ];
    let store = KeyStore::from_keys(&keys, "catbird-key-1").unwrap();
    let setup = create_oauth_client(&config(), Some(&store)).unwrap();
    assert_eq!(setup.metadata.jwks_uri, "https://api.catbird.blue/.well-known/jwks.json");
    assert_eq!(setup.keys.len(), 2);
    assert_eq!(setup.keys[0].kid, "catbird-key-1");
    assert_eq!(setup.keys[0].x, coordinates().0);
    assert_eq!(setup.keys[0].y, coordinates().1);
    assert_eq!(setup.keys[0].d, URL_SAFE_NO_PAD.encode(scalar()));
    assert_eq!(setup.keys[1].kid, "catbird-key-2");
    let e = create_oauth_client(&config(), None).unwrap_err();
    assert_eq!(e.kind(), ErrorKind::Config);
    let bad = KeyStore::from_keys(
        &vec![SigningKey { kid: "k".to_string(), secret_key: vec![0u8; 32] }],
        "k",
    )
    .unwrap();
    assert_eq!(create_oauth_client(&config(), Some(&bad)).unwrap_err().kind(), ErrorKind::Crypto);
    assert_eq!(
        private_jwk(&SigningKey { kid: "k".to_string(), secret_key: vec![0u8; 32] })
            .unwrap_err()
            .kind(),
        ErrorKind::Crypto
    );
}

#[test]
fn authorization_state_and_outcome_keys() {
    let states = RedisStateStore::new("catbird:".to_string());
    assert_eq!(states.key_for("S1"), "catbird:oauth_state:S1");
    assert_eq!(states.ttl_seconds(), 600);
    let outcomes = RedisSessionStore::new("catbird:".to_string());
    assert_eq!(outcomes.key_for("did:plc:alice"), "catbird:oauth_session:did:plc:alice");
    assert_eq!(outcomes.ttl_seconds(), 2_592_000);
}

#[test]
fn configuration_defaults() {
    assert_eq!(default_host(), "127.0.0.1");
    assert_eq!(default_port(), 3000);
    assert_eq!(default_redis_url(), "redis://127.0.0.1:6379");
    assert_eq!(default_key_prefix(), "catbird:session:");
    assert_eq!(default_session_ttl(), 30 * 86_400);
    assert_eq!(default_mls_service_did(), "did:web:mls.catbird.blue");
    assert_eq!(
        default_scopes(),
        vec!["atproto".to_string(), "transition:generic".to_string(), "transition:chat.bsky".to_string()]
    );
    let mut mls = MlsConfig::unset();
    assert!(!mls.is_enabled());
    mls.service_url = Some("https://mls.example".to_string());
    assert!(!mls.is_enabled());
    mls.gateway_did = Some("did:web:gateway.example".to_string());
    assert!(mls.is_enabled());
    assert_eq!(mls.service_did, "did:web:mls.catbird.blue");
}
