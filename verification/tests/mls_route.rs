use base64::engine::general_purpose::URL_SAFE_NO_PAD;
use base64::Engine;
use catbird::client::{proxy_xrpc, AtProtoClient};
use catbird::config::MlsConfig;
use catbird::error::{AppError, ErrorKind};
use catbird::http::Header;
use catbird::keys::SigningKey;
use catbird::mls::MlsAuthService;
use catbird::models::CatbirdSession;
use catbird::proxy::{Proxy, ProxyResponse, ProxyStep, UpstreamRequest};
use catbird::stamp::Stamp;
use serde_json::Value;

fn header(name: &str, value: &str) -> Header {
    Header { name: name.to_string(), value: value.to_string() }
}

fn session() -> CatbirdSession {
    CatbirdSession {
        id: "sess-1".to_string(),
        did: "did:plc:alice".to_string(),
        handle: "alice.example".to_string(),
        pds_url: "https://pds.example.com".to_string(),
        access_token: "access-1".to_string(),
        refresh_token: "refresh-1".to_string(),
        access_token_expires_at: 2_000_000_000,
        created_at: 1_700_000_000,
        last_used_at: 1_700_000_000,
        dpop_jkt: None,
    }
}

fn key() -> SigningKey {
    SigningKey { kid: "catbird-key-1".to_string(), secret_key: vec![0x44; 32] }
}

fn enabled() -> MlsAuthService {
    MlsAuthService::new(
        MlsConfig {
            service_url: Some("https://mls.catbird.blue".to_string()),
            gateway_did: Some("did:web:api.catbird.blue".to_string()),
            service_did: "did:web:mls.catbird.blue".to_string(),
        },
        key(),
    )
}

fn stamp() -> Stamp {
    Stamp { now: 1_700_000_500, jti: "tok-7".to_string() }
}

fn sent(step: ProxyStep) -> (Proxy, UpstreamRequest) {
    match step {
        ProxyStep::Send { next, request } => (next, request),
        other => panic!("expected a request to send, got {:?}", other),
    }
}

fn failed(step: ProxyStep) -> AppError {
    match step {
        ProxyStep::Done(Err(e)) => e,
        other => panic!("expected a failure, got {:?}", other),
    }
}

fn claims(token: &str) -> (Value, Value) {
    let pieces: Vec<&str> = token.split('.').collect();
    assert_eq!(pieces.len(), 3);
    (
        serde_json::from_slice(&URL_SAFE_NO_PAD.decode(pieces[0]).unwrap()).unwrap(),
        serde_json::from_slice(&URL_SAFE_NO_PAD.decode(pieces[1]).unwrap()).unwrap(),
    )
}

#[test]
fn test_is_mls_lexicon() {
    assert!(MlsAuthService::is_mls_lexicon("blue.catbird.mls.getConvos"));
    assert!(MlsAuthService::is_mls_lexicon("blue.catbird.mls.sendMessage"));
    assert!(!MlsAuthService::is_mls_lexicon("app.bsky.feed.getTimeline"));
    assert!(!MlsAuthService::is_mls_lexicon("chat.bsky.convo.listConvos"));
}

#[test]
fn lexicon_prefix_is_exact() {
    assert!(MlsAuthService::is_mls_lexicon("blue.catbird.mls."));
    assert!(!MlsAuthService::is_mls_lexicon("blue.catbird.mls"));
    assert!(!MlsAuthService::is_mls_lexicon("blue.catbird.mlsx.y"));
    assert!(!MlsAuthService::is_mls_lexicon("Blue.Catbird.Mls.getConvos"));
    assert!(!MlsAuthService::is_mls_lexicon(""));
}

#[test]
fn service_is_enabled_with_url_and_did() {
    assert!(enabled().is_enabled());
    assert_eq!(enabled().service_url(), Some("https://mls.catbird.blue"));
    let mut half = enabled();
    half.config.gateway_did = None;
    assert!(!half.is_enabled());
    let off = MlsAuthService::new(MlsConfig::unset(), key());
    assert!(!off.is_enabled());
    assert_eq!(off.service_url(), None);
}

#[test]
fn service_token_is_issued_by_the_gateway_for_the_user() {
    let token = enabled()
        .generate_service_token(&session(), "blue.catbird.mls.getConvos", &stamp())
        .unwrap();
    let (header, payload) = claims(&token);
    assert_eq!(header["alg"], "ES256");
    assert_eq!(header["typ"], "JWT");
    assert_eq!(header["kid"], "catbird-key-1");
    assert_eq!(payload["iss"], "did:web:api.catbird.blue");
    assert_eq!(payload["sub"], "did:plc:alice");
    assert_eq!(payload["aud"], "did:web:mls.catbird.blue");
    assert_eq!(payload["lxm"], "blue.catbird.mls.getConvos");
    assert_eq!(payload["jti"], "tok-7");
    assert_eq!(payload["iat"], 1_700_000_500i64);
    assert_eq!(payload["exp"], 1_700_000_620i64);
}

#[test]
fn no_token_without_a_gateway_did() {
    let mut service = enabled();
    service.config.gateway_did = None;
    let e = service.generate_service_token(&session(), "blue.catbird.mls.x", &stamp()).unwrap_err();
    assert_eq!(e.kind(), ErrorKind::Config);
    assert_eq!(e.status_code(), 500);
}

#[test]
fn direct_call_carries_a_bearer_token_and_no_dpop() {
    let (next, request) = sent(enabled().proxy_request(
        &session(),
        "POST",
        "blue.catbird.mls.sendMessage",
        Some("a=1"),
        Some(b"{}".to_vec()),
        Some("application/json"),
        &stamp(),
    ));
    assert!(matches!(next, Proxy::DirectHead));
    assert_eq!(request.method, "POST");
    assert_eq!(request.url, "https://mls.catbird.blue/xrpc/blue.catbird.mls.sendMessage?a=1");
    assert_eq!(request.body, Some(b"{}".to_vec()));
    assert_eq!(request.headers.len(), 2);
    assert_eq!(request.headers[0].name, "Authorization");
    let token = request.headers[0].value.strip_prefix("Bearer ").unwrap();
    let (_, payload) = claims(token);
    assert_eq!(payload["lxm"], "blue.catbird.mls.sendMessage");
    assert_eq!(request.headers[1].name, "Content-Type");
    assert_eq!(request.headers[1].value, "application/json");
}

#[test]
fn direct_call_needs_the_service_url() {
    let mut service = enabled();
    service.config.service_url = None;
    let e = failed(service.proxy_request(&session(), "GET", "blue.catbird.mls.x", None, None, None, &stamp()));
    assert_eq!(e.kind(), ErrorKind::Config);
    let mut service = enabled();
    service.key.secret_key = vec![0u8; 32];
    let e = failed(service.proxy_request(&session(), "GET", "blue.catbird.mls.x", None, None, None, &stamp()));
    assert_eq!(e.kind(), ErrorKind::Crypto);
}

#[test]
fn messaging_lexicons_bypass_the_pds() {
    let client = AtProtoClient::new(false);
    let service = enabled();
    let (next, request) = sent(proxy_xrpc(
        &client,
        Some(&service),
        session(),
        None,
        "GET",
        "blue.catbird.mls.getConvos",
        Some("limit=5"),
        vec![header("Authorization", "Bearer sess-1"), header("Accept", "*/*")],
        Vec::new(),
        &stamp(),
    ));
    assert!(matches!(next, Proxy::DirectHead));
    assert_eq!(request.url, "https://mls.catbird.blue/xrpc/blue.catbird.mls.getConvos?limit=5");
    assert_eq!(request.body, None);
    assert_eq!(request.headers.len(), 1);
    assert!(request.headers[0].value.starts_with("Bearer ey"));
}

#[test]
fn other_lexicons_and_unconfigured_services_go_through_the_pds() {
    let client = AtProtoClient::new(false);
    let service = enabled();
    let (next, request) = sent(proxy_xrpc(
        &client,
        Some(&service),
        session(),
        None,
        "GET",
        "app.bsky.feed.getTimeline",
        None,
        Vec::new(),
        Vec::new(),
        &stamp(),
    ));
    assert!(matches!(next, Proxy::FirstHead { .. }));
    assert_eq!(request.url, "https://pds.example.com/xrpc/app.bsky.feed.getTimeline");
    let off = MlsAuthService::new(MlsConfig::unset(), key());
    let (next, request) = sent(proxy_xrpc(
        &client,
        Some(&off),
        session(),
        None,
        "POST",
        "blue.catbird.mls.sendMessage",
        None,
        vec![header("content-type", "application/json")],
        b"{\"m\":1}".to_vec(),
        &stamp(),
    ));
    assert!(matches!(next, Proxy::FirstHead { .. }));
    assert_eq!(request.url, "https://pds.example.com/xrpc/blue.catbird.mls.sendMessage");
    assert_eq!(request.body, Some(b"{\"m\":1}".to_vec()));
}

#[test]
fn direct_responses_are_capped_too() {
    let (next, _) = sent(enabled().proxy_request(&session(), "GET", "blue.catbird.mls.x", None, None, None, &stamp()));
    let step = next.advance(
        catbird::proxy::ProxyEvent::Head { status: 200, headers: vec![header("Content-Length", "52428801")] },
        &stamp(),
    );
    assert_eq!(failed(step).kind(), ErrorKind::ResponseTooLarge);
    let (next, _) = sent(enabled().proxy_request(&session(), "GET", "blue.catbird.mls.x", None, None, None, &stamp()));
    let step = next.advance(
        catbird::proxy::ProxyEvent::Head { status: 200, headers: vec![header("Content-Type", "application/json")] },
        &stamp(),
    );
    let next = match step {
        ProxyStep::Read { next, limit } => {
            assert_eq!(limit, 52_428_800);
            next
        },
        other => panic!("expected a body to read, got {:?}", other),
    };
    match next.advance(catbird::proxy::ProxyEvent::Body(b"[]".to_vec()), &stamp()) {
        ProxyStep::Done(Ok(ProxyResponse::Buffered { status, body, headers })) => {
            assert_eq!(status, 200);
            assert_eq!(body, b"[]".to_vec());
            assert_eq!(headers.len(), 1);
        },
        other => panic!("expected a buffered response, got {:?}", other),
    }
}
