use catbird::client::{judge_response, AtProtoClient};
use catbird::error::{AppError, ErrorKind};
use catbird::models::CatbirdSession;
use catbird::codec::{copy_bytes, sub_bytes};
use catbird::proxy::{build_auth_headers_for_request, complete_headers, wanted_nonce};
use catbird::http::Header;
use catbird::stamp::{Stamp, Stamps};
use catbird::store::{
    clear_session_data, delete_session, dpop_key, oauth_session_key, oauth_state_key,
    save_session, session_key, Record, StoreCommand, StoreLayout,
};

fn header(name: &str, value: &str) -> Header {
    Header { name: name.to_string(), value: value.to_string() }
}

fn session() -> CatbirdSession {
    CatbirdSession {
        id: "sess-1".to_string(),
        did: "did:plc:alice".to_string(),
        handle: "alice.example".to_string(),
        pds_url: "https://pds.example.com".to_string(),
        access_token: "access-1".to_string(),
        refresh_token: "refresh-1".to_string(),
        access_token_expires_at: 2_000_000_000,
        created_at: 1_700_000_000,
        last_used_at: 1_700_000_100,
        dpop_jkt: None,
    }
}

fn stamp() -> Stamp {
    Stamp { now: 5, jti: "j".to_string() }
}

#[test]
fn get_and_post_requests_of_the_client() {
    let client = AtProtoClient::new(false);
    let get = client.get(&session(), &None, "/xrpc/com.atproto.server.getSession", &stamp()).unwrap();
    assert_eq!(get.method, "GET");
    assert_eq!(get.url, "https://pds.example.com/xrpc/com.atproto.server.getSession");
    assert_eq!(get.body, None);
    assert_eq!(get.headers.len(), 1);
    assert_eq!(get.headers[0].name, "authorization");
    assert_eq!(get.headers[0].value, "Bearer access-1");
    let post = client
        .post(&session(), &None, "/xrpc/com.atproto.repo.createRecord", "{\"a\":\"é\"}", &stamp())
        .unwrap();
    assert_eq!(post.method, "POST");
    assert_eq!(post.url, "https://pds.example.com/xrpc/com.atproto.repo.createRecord");
    assert_eq!(post.body, Some("{\"a\":\"é\"}".as_bytes().to_vec()));
    assert_eq!(post.headers.len(), 2);
    assert_eq!(post.headers[1].name, "content-type");
    assert_eq!(post.headers[1].value, "application/json");
    let mut bound = session();
    bound.dpop_jkt = Some("dpop".to_string());
    assert_eq!(client.get(&bound, &None, "/xrpc/x", &stamp()).unwrap_err().kind(), ErrorKind::Internal);
    assert_eq!(client.post(&bound, &None, "/xrpc/x", "{}", &stamp()).unwrap_err().kind(), ErrorKind::Internal);
    assert_eq!(
        client.build_auth_headers_for_request(&bound, &None, "GET", "https://pds.example.com/x", None, &stamp())
            .unwrap_err()
            .kind(),
        ErrorKind::Internal
    );
    assert_eq!(client.get_dpop_private_key("catbird:", &session()), "catbird:dpop_key:sess-1");
}

#[test]
fn responses_to_json_requests() {
    assert_eq!(AtProtoClient::handle_response(200, "{\"ok\":true}".to_string()).unwrap(), "{\"ok\":true}");
    assert_eq!(AtProtoClient::handle_response(201, "[1,2]".to_string()).unwrap(), "[1,2]");
    let e = AtProtoClient::handle_response(200, "<html>".to_string()).unwrap_err();
    assert_eq!(e.kind(), ErrorKind::HttpClient);
    let e = AtProtoClient::handle_response(200, String::new()).unwrap_err();
    assert_eq!(e.kind(), ErrorKind::HttpClient);
    match AtProtoClient::handle_response(404, "{\"error\":\"NotFound\"}".to_string()).unwrap_err() {
        AppError::Upstream { status, message } => {
            assert_eq!(status, 404);
            assert_eq!(message, "{\"error\":\"NotFound\"}");
        },
        other => panic!("expected an upstream error, got {:?}", other),
    }
    assert_eq!(AtProtoClient::handle_response(500, "<html>".to_string()).unwrap_err().status_code(), 500);
    assert_eq!(judge_response(204, true, "x".to_string()).unwrap(), "x");
    assert_eq!(judge_response(204, false, "{}".to_string()).unwrap_err().kind(), ErrorKind::HttpClient);
    assert_eq!(judge_response(300, true, "{}".to_string()).unwrap_err().kind(), ErrorKind::Upstream);
}

#[test]
fn nonce_is_wanted_only_by_a_401_that_says_so() {
    let with = vec![header("DPoP-Nonce", "n1")];
    let e = |t: &str| Some(t.to_string());
    assert_eq!(wanted_nonce(401, &with, e("use_dpop_nonce")).as_deref(), Some("n1"));
    assert_eq!(wanted_nonce(401, &with, e("invalid_token")), None);
    assert_eq!(wanted_nonce(401, &with, e("USE_DPOP_NONCE")), None);
    assert_eq!(wanted_nonce(401, &with, None), None);
    assert_eq!(wanted_nonce(400, &with, e("use_dpop_nonce")), None);
    assert_eq!(wanted_nonce(200, &with, e("use_dpop_nonce")), None);
    assert_eq!(wanted_nonce(401, &Vec::new(), e("use_dpop_nonce")), None);
}

#[test]
fn authentication_headers() {
    let headers =
        build_auth_headers_for_request(&session(), &None, "GET", "https://pds.example.com/x", None, &stamp())
            .unwrap();
    assert_eq!(headers.len(), 1);
    assert_eq!(headers[0].name, "authorization");
    assert_eq!(headers[0].value, "Bearer access-1");
    let done = complete_headers(
        headers,
        &Some("text/plain".to_string()),
        &vec![header("Accept", "*/*"), header("authorization", "Bearer x")],
    );
    let names: Vec<&str> = done.iter().map(|h| h.name.as_str()).collect();
    assert_eq!(names, vec!["authorization", "content-type", "Accept"]);
    assert_eq!(done[0].value, "Bearer access-1");
    assert_eq!(copy_bytes(&vec![1, 2, 3]), vec![1, 2, 3]);
    assert_eq!(sub_bytes(&vec![1, 2, 3, 4], 1, 3), vec![2, 3]);
    assert!(sub_bytes(&vec![1, 2, 3, 4], 2, 2).is_empty());
}

#[test]
fn store_keys_are_prefix_kind_and_identifier() {
    assert_eq!(session_key("p:", "abc"), "p:catbird_session:abc");
    assert_eq!(dpop_key("p:", "abc"), "p:dpop_key:abc");
    assert_eq!(oauth_session_key("p:", "abc"), "p:oauth_session:abc");
    assert_eq!(oauth_state_key("p:", "S1"), "p:oauth_state:S1");
    assert_eq!(session_key("", ""), "catbird_session:");
}

#[test]
fn store_commands() {
    match save_session("p:", 60, &session()) {
        StoreCommand::Put { key, ttl_seconds, record: Record::Session(s) } => {
            assert_eq!(key, "p:catbird_session:sess-1");
            assert_eq!(ttl_seconds, 60);
            assert_eq!(s.did, "did:plc:alice");
            assert_eq!(s.last_used_at, 1_700_000_100);
        },
        other => panic!("expected a write, got {:?}", other),
    }
    match delete_session("p:", "sess-1") {
        StoreCommand::Delete { key } => assert_eq!(key, "p:catbird_session:sess-1"),
        other => panic!("expected a deletion, got {:?}", other),
    }
    let keys: Vec<String> = clear_session_data("p:", "sess-1")
        .into_iter()
        .map(|c| match c {
            StoreCommand::Delete { key } => key,
            other => panic!("expected a deletion, got {:?}", other),
        })
        .collect();
    assert_eq!(keys, vec!["p:catbird_session:sess-1", "p:dpop_key:sess-1", "p:oauth_session:sess-1"]);
    let layout = StoreLayout { key_prefix: "p:".to_string(), session_ttl_seconds: 9 };
    let copy = layout.duplicate();
    assert_eq!(copy.key_prefix, "p:");
    assert_eq!(copy.session_ttl_seconds, 9);
}

#[test]
fn session_info_and_copies() {
    let s = session();
    let info = s.info();
    assert_eq!(info.did, "did:plc:alice");
    assert_eq!(info.handle, "alice.example");
    assert_eq!(info.created_at, 1_700_000_000);
    let copy = s.duplicate();
    assert_eq!(copy.id, s.id);
    assert_eq!(copy.access_token, s.access_token);
    assert_eq!(copy.refresh_token, s.refresh_token);
    assert_eq!(copy.access_token_expires_at, s.access_token_expires_at);
    assert_eq!(copy.dpop_jkt, s.dpop_jkt);
}

#[test]
fn stamps_are_fresh() {
    let a = Stamp::fresh();
    let b = Stamp::fresh();
    assert_eq!(a.jti.len(), 36);
    assert_ne!(a.jti, b.jti);
    assert!(a.now > 1_600_000_000);
    assert!(b.now >= a.now);
    let id = Stamp::new_id();
    assert_eq!(id.len(), 36);
    assert_eq!(id.matches('-').count(), 4);
    assert!(id.chars().all(|c| c == '-' || c.is_ascii_hexdigit()));
    let s = Stamps::fresh();
    assert_ne!(s.assertion_jti, s.proof_jti);
    assert!(Stamp::now() >= a.now);
}
