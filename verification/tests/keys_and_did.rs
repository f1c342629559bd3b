use base64::engine::general_purpose::{STANDARD, URL_SAFE_NO_PAD};
use base64::Engine;
use catbird::config::MlsConfig;
use catbird::did::{did_document, did_web, gateway_did, jwks};
use catbird::error::ErrorKind;
use catbird::keys::{
    derive_kid_from_path, derive_kid_from_stem, CryptoService, KeyFile, KeyStore, SigningKey,
};
use p256::pkcs8::EncodePrivateKey;

fn scalar(seed: u8) -> Vec<u8> {
    (0..32).map(|i| seed.wrapping_add(i as u8).max(1)).collect()
}

fn pem(seed: u8) -> String {
    let key = p256::SecretKey::from_slice(&scalar(seed)).unwrap();
    key.to_pkcs8_pem(p256::pkcs8::LineEnding::LF).unwrap().to_string()
}

fn coordinates(seed: u8) -> (String, String) {
    let key = p256::SecretKey::from_slice(&scalar(seed)).unwrap();
    let point =
        p256::elliptic_curve::sec1::ToEncodedPoint::to_encoded_point(&key.public_key(), false);
    (URL_SAFE_NO_PAD.encode(point.x().unwrap()), URL_SAFE_NO_PAD.encode(point.y().unwrap()))
}

fn file(path: &str, seed: u8) -> KeyFile {
    KeyFile { path: path.to_string(), pem: pem(seed) }
}

fn no_legacy() -> CryptoService {
    CryptoService::new(None, None)
}

#[test]
fn key_identifiers_come_from_file_names() {
    assert_eq!(derive_kid_from_path("/keys/key1.pem"), "catbird-key1");
    assert_eq!(derive_kid_from_path("/keys/catbird-2024.pem"), "catbird-2024");
    assert_eq!(derive_kid_from_path("relative/dir/signing.key.pem"), "catbird-signing.key");
    assert_eq!(derive_kid_from_path("noext"), "catbird-noext");
    assert_eq!(derive_kid_from_path(""), "catbird-key");
    assert_eq!(derive_kid_from_path("/"), "catbird-key");
    assert_eq!(derive_kid_from_path("/keys/.hidden"), "catbird-.hidden");
    assert_eq!(derive_kid_from_stem(Some("key1".to_string())), "catbird-key1");
    assert_eq!(derive_kid_from_stem(Some("catbird-key1".to_string())), "catbird-key1");
    assert_eq!(derive_kid_from_stem(Some("Catbird-key1".to_string())), "catbird-Catbird-key1");
    assert_eq!(derive_kid_from_stem(Some(String::new())), "catbird-");
    assert_eq!(derive_kid_from_stem(None), "catbird-key");
}

#[test]
fn key_files_are_loaded_in_order() {
    let files = vec![file("/keys/key1.pem", 1), file("/keys/key2.pem", 2)];
    let store = KeyStore::from_config(&files, &no_legacy(), "catbird-key2").unwrap();
    let all = store.all_keys();
    assert_eq!(all.len(), 2);
    assert_eq!(all[0].kid, "catbird-key1");
    assert_eq!(all[0].secret_key, scalar(1));
    assert_eq!(all[1].kid, "catbird-key2");
    assert_eq!(all[1].secret_key, scalar(2));
    let active = store.active_key();
    assert_eq!(active.kid, "catbird-key2");
    assert_eq!(active.secret_key, scalar(2));
    assert_eq!(store.get_key("catbird-key1").unwrap().secret_key, scalar(1));
    assert!(store.get_key("catbird-key3").is_none());
}

#[test]
fn a_later_file_replaces_an_earlier_one_of_the_same_name() {
    let files = vec![file("/a/key1.pem", 1), file("/b/other.pem", 2), file("/c/key1.pem", 3)];
    let store = KeyStore::from_config(&files, &no_legacy(), "catbird-key1").unwrap();
    let all = store.all_keys();
    assert_eq!(all.len(), 2);
    assert_eq!(all[0].kid, "catbird-other");
    assert_eq!(all[1].kid, "catbird-key1");
    assert_eq!(all[1].secret_key, scalar(3));
    assert_eq!(store.active_key().secret_key, scalar(3));
}

#[test]
fn the_single_key_is_used_where_no_files_are_listed() {
    let legacy = CryptoService::new(None, Some(pem(7)));
    let store = KeyStore::from_config(&Vec::new(), &legacy, "catbird-key-1").unwrap();
    let all = store.all_keys();
    assert_eq!(all.len(), 1);
    assert_eq!(all[0].kid, "catbird-key-1");
    assert_eq!(all[0].secret_key, scalar(7));
    // the base64 form comes before the file
    let legacy = CryptoService::new(Some(STANDARD.encode(pem(8))), Some(pem(7)));
    let store = KeyStore::from_config(&Vec::new(), &legacy, "catbird-key-1").unwrap();
    assert_eq!(store.active_key().secret_key, scalar(8));
    // listed files come before both
    let store =
        KeyStore::from_config(&vec![file("/k/catbird-key-1.pem", 9)], &legacy, "catbird-key-1")
            .unwrap();
    assert_eq!(store.all_keys().len(), 1);
    assert_eq!(store.active_key().secret_key, scalar(9));
}

#[test]
fn configurations_without_a_usable_key_are_refused() {
    let e = KeyStore::from_config(&Vec::new(), &no_legacy(), "catbird-key-1").unwrap_err();
    assert_eq!(e.kind(), ErrorKind::Config);
    let e = KeyStore::from_config(&vec![file("/k/key1.pem", 1)], &no_legacy(), "catbird-key9")
        .unwrap_err();
    assert_eq!(e.kind(), ErrorKind::Config);
    let broken = vec![KeyFile { path: "/k/key1.pem".to_string(), pem: "not a pem".to_string() }];
    let e = KeyStore::from_config(&broken, &no_legacy(), "catbird-key1").unwrap_err();
    assert_eq!(e.kind(), ErrorKind::Crypto);
    assert_eq!(e.status_code(), 500);
    assert_eq!(e.message(), "Cryptographic operation failed");
    let legacy = CryptoService::new(Some("%%%".to_string()), None);
    let e = KeyStore::from_config(&Vec::new(), &legacy, "catbird-key-1").unwrap_err();
    assert_eq!(e.kind(), ErrorKind::Config);
    let legacy = CryptoService::new(Some(STANDARD.encode([0xff, 0xfe, 0xfd])), None);
    let e = KeyStore::from_config(&Vec::new(), &legacy, "catbird-key-1").unwrap_err();
    assert_eq!(e.kind(), ErrorKind::Config);
    let legacy = CryptoService::new(Some(STANDARD.encode("plain text")), None);
    let e = KeyStore::from_config(&Vec::new(), &legacy, "catbird-key-1").unwrap_err();
    assert_eq!(e.kind(), ErrorKind::Crypto);
}

#[test]
fn the_single_key_on_its_own() {
    let service = CryptoService::new(Some(STANDARD.encode(pem(4))), None);
    assert_eq!(service.find_private_key_pem().unwrap(), Some(pem(4)));
    assert_eq!(service.load_private_key_pem().unwrap(), pem(4));
    assert_eq!(service.load_private_key().unwrap(), scalar(4));
    let service = CryptoService::new(None, Some(pem(5)));
    assert_eq!(service.load_private_key().unwrap(), scalar(5));
    assert_eq!(no_legacy().find_private_key_pem().unwrap(), None);
    assert_eq!(no_legacy().load_private_key_pem().unwrap_err().kind(), ErrorKind::Config);
    assert_eq!(no_legacy().load_private_key().unwrap_err().kind(), ErrorKind::Config);
}

#[test]
fn a_store_of_given_keys() {
    let keys = vec![
        SigningKey { kid: "a".to_string(), secret_key: scalar(1) },
        SigningKey { kid: "b".to_string(), secret_key: scalar(2) },
        SigningKey { kid: "a".to_string(), secret_key: scalar(3) },
    ];
    let store = KeyStore::from_keys(&keys, "a").unwrap();
    let all = store.all_keys();
    assert_eq!(all.len(), 2);
    assert_eq!(all[0].kid, "b");
    assert_eq!(all[1].kid, "a");
    assert_eq!(store.active_key().secret_key, scalar(3));
    assert_eq!(KeyStore::from_keys(&keys, "c").unwrap_err().kind(), ErrorKind::Config);
    assert_eq!(KeyStore::from_keys(&Vec::new(), "a").unwrap_err().kind(), ErrorKind::Config);
}

#[test]
fn public_keys_are_published_without_the_private_part() {
    let files = vec![file("/keys/key1.pem", 1), file("/keys/key2.pem", 2)];
    let store = KeyStore::from_config(&files, &no_legacy(), "catbird-key1").unwrap();
    let published = jwks(Some(&store));
    assert_eq!(published.len(), 2);
    for (i, seed) in [(0usize, 1u8), (1, 2)] {
        let (x, y) = coordinates(seed);
        assert_eq!(published[i].kty, "EC");
        assert_eq!(published[i].crv, "P-256");
        assert_eq!(published[i].key_use, "sig");
        assert_eq!(published[i].kid, format!("catbird-key{}", seed));
        assert_eq!(published[i].x, x);
        assert_eq!(published[i].y, y);
    }
    assert!(jwks(None).is_empty());
    let one = SigningKey { kid: "k".to_string(), secret_key: scalar(1) }.to_jwk();
    assert_eq!(one.x, coordinates(1).0);
    let none = SigningKey { kid: "k".to_string(), secret_key: vec![0u8; 32] }.to_jwk();
    assert_eq!(none.x, "");
    assert_eq!(none.y, "");
}

#[test]
fn did_of_the_gateway() {
    assert_eq!(did_web("https://api.catbird.blue"), "did:web:api.catbird.blue");
    assert_eq!(did_web("https://api.catbird.blue/"), "did:web:api.catbird.blue");
    assert_eq!(did_web("http://localhost:3000/base/path"), "did:web:localhost:3000");
    assert_eq!(did_web("api.catbird.blue"), "did:web:api.catbird.blue");
    assert_eq!(did_web(""), "did:web:");
    let mut mls = MlsConfig::unset();
    assert_eq!(gateway_did(&mls, "https://api.catbird.blue"), "did:web:api.catbird.blue");
    mls.gateway_did = Some("did:web:gateway.example".to_string());
    assert_eq!(gateway_did(&mls, "https://api.catbird.blue"), "did:web:gateway.example");
}

#[test]
fn did_document_lists_every_key() {
    let files = vec![file("/keys/key1.pem", 1), file("/keys/key2.pem", 2)];
    let store = KeyStore::from_config(&files, &no_legacy(), "catbird-key2").unwrap();
    let doc = did_document("did:web:api.catbird.blue", &store);
    assert_eq!(doc.id, "did:web:api.catbird.blue");
    assert_eq!(doc.verification_method.len(), 2);
    assert_eq!(doc.verification_method[0].id, "did:web:api.catbird.blue#key-1");
    assert_eq!(doc.verification_method[1].id, "did:web:api.catbird.blue#key-2");
    assert_eq!(doc.verification_method[0].controller, "did:web:api.catbird.blue");
    assert_eq!(doc.verification_method[0].public_key_jwk.kid, "catbird-key1");
    assert_eq!(doc.verification_method[1].public_key_jwk.kid, "catbird-key2");
    assert_eq!(doc.verification_method[1].public_key_jwk.x, coordinates(2).0);
    assert_eq!(doc.verification_method[1].public_key_jwk.y, coordinates(2).1);
    let refs =
        vec!["did:web:api.catbird.blue#key-1".to_string(), "did:web:api.catbird.blue#key-2".to_string()];
    assert_eq!(doc.authentication, refs);
    assert_eq!(doc.assertion_method, refs);
}
