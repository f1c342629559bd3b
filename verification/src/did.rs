//! The gateway's DID document and JWKS.
//!
//! The document lists every key of the key store as a verification method,
//! each also named under `authentication` and `assertionMethod`, so that a
//! verifier accepts tokens signed by any of them while the active key
//! changes.

use crate::config::MlsConfig;
use crate::keys::{jwk_of, key_pairs, Jwk, KeyStore};
use crate::text::{
    chars_match_at,
    chars_of,
    find_char,
    find_from,
    nat_decimal,
    slice_string,
    u64_decimal,
};
use vstd::prelude::*;
use vstd::string::*;

verus! {

/// One verification method of a DID document. Its type is
/// `JsonWebKey2020`.
#[derive(Debug)]
pub struct VerificationMethod {
    pub id: String,
    pub controller: String,
    /// The public key; its `use` member is not part of the document.
    pub public_key_jwk: Jwk,
}

/// A DID document. Its `@context` is that of DID documents and of the
/// JSON Web Signature 2020 suite.
#[derive(Debug)]
pub struct DidDocument {
    pub id: String,
    pub verification_method: Vec<VerificationMethod>,
    pub authentication: Vec<String>,
    pub assertion_method: Vec<String>,
}

/// `s` without `prefix` at its beginning, however often it stands there.
pub open spec fn strip_all(s: Seq<char>, prefix: Seq<char>) -> Seq<char>
    decreases s.len(),
{
    if prefix.len() > 0 && prefix.is_prefix_of(s) {
        strip_all(s.subrange(prefix.len() as int, s.len() as int), prefix)
    } else {
        s
    }
}

/// The host of a base URL: what stands between the scheme and the first
/// slash after it.
pub open spec fn host_of_base(base_url: Seq<char>) -> Seq<char> {
    let rest = strip_all(strip_all(base_url, "https://"@), "http://"@);
    rest.subrange(0, find_from(rest, '/', 0))
}

/// The `did:web` identifier of a gateway reached under `base_url`.
pub open spec fn did_web_of(base_url: Seq<char>) -> Seq<char> {
    "did:web:"@ + host_of_base(base_url)
}

/// The DID of the gateway: the configured one, or the `did:web` of its
/// base URL.
pub open spec fn gateway_did_of(configured: Option<Seq<char>>, base_url: Seq<char>) -> Seq<char> {
    match configured {
        Some(d) => d,
        None => did_web_of(base_url),
    }
}

/// The identifier of the key at `index` in the document of `did`: keys are
/// numbered from one.
pub open spec fn key_ref(did: Seq<char>, index: int) -> Seq<char> {
    did + "#key-"@ + nat_decimal((index + 1) as nat)
}

/// Skips `prefix` at `start` as often as it stands there.
fn skip_all(v: &Vec<char>, start: usize, prefix: &Vec<char>) -> (r: usize)
    requires
        start <= v.len(),
    ensures
        start <= r <= v.len(),
        v@.subrange(r as int, v.len() as int) == strip_all(
            v@.subrange(start as int, v.len() as int),
            prefix@,
        ),
{
    let mut at: usize = start;
    if prefix.len() == 0 {
        return at;
    }
    loop
        invariant
            start <= at <= v.len(),
            prefix.len() > 0,
            strip_all(v@.subrange(start as int, v.len() as int), prefix@) == strip_all(
                v@.subrange(at as int, v.len() as int),
                prefix@,
            ),
        decreases v.len() - at,
    {
        let ghost rest = v@.subrange(at as int, v.len() as int);
        if !chars_match_at(v, at, prefix) {
            assert(!prefix@.is_prefix_of(rest)) by {
                if prefix@.is_prefix_of(rest) {
                    assert(v@.subrange(at as int, at + prefix@.len()) =~= rest.subrange(
                        0,
                        prefix@.len() as int,
                    ));
                }
            }
            return at;
        }
        assert(prefix@.is_prefix_of(rest)) by {
            assert(rest.subrange(0, prefix@.len() as int) =~= v@.subrange(
                at as int,
                at + prefix@.len(),
            ));
        }
        assert(rest.subrange(prefix@.len() as int, rest.len() as int) =~= v@.subrange(
            at + prefix@.len(),
            v.len() as int,
        ));
        at = at + prefix.len();
    }
}

proof fn find_shifted(s: Seq<char>, c: char, start: int, from: int)
    requires
        0 <= start <= from <= s.len(),
    ensures
        find_from(s.subrange(start, s.len() as int), c, from - start) == find_from(s, c, from)
            - start,
    decreases s.len() - from,
{
    let t = s.subrange(start, s.len() as int);
    if from < s.len() {
        assert(t[from - start] == s[from]);
        if s[from] != c {
            find_shifted(s, c, start, from + 1);
        }
    }
}

/// The `did:web` identifier of a gateway reached under `base_url`.
pub fn did_web(base_url: &str) -> (r: String)
    ensures
        r@ == did_web_of(base_url@),
{
    let v = chars_of(base_url);
    let https = chars_of("https://");
    let http = chars_of("http://");
    let a = skip_all(&v, 0, &https);
    assert(v@.subrange(0, v.len() as int) == v@);
    let b = skip_all(&v, a, &http);
    let end = find_char(&v, '/', b);
    proof {
        find_shifted(v@, '/', b as int, b as int);
        let rest = v@.subrange(b as int, v.len() as int);
        assert(rest.subrange(0, end - b) =~= v@.subrange(b as int, end as int));
    }
    let host = slice_string(&v, b, end);
    let mut did = String::from_str("did:web:");
    did.append(host.as_str());
    did
}

/// The DID of the gateway.
pub fn gateway_did(mls: &MlsConfig, base_url: &str) -> (r: String)
    ensures
        r@ == gateway_did_of(mls.gateway_did.deep_view(), base_url@),
{
    match &mls.gateway_did {
        Some(d) => d.clone(),
        None => did_web(base_url),
    }
}

fn key_ref_of(did: &str, index: usize) -> (r: String)
    requires
        index < usize::MAX,
    ensures
        r@ == key_ref(did@, index as int),
{
    let mut id = String::from_str(did);
    id.append("#key-");
    id.append(u64_decimal((index + 1) as u64).as_str());
    id
}

/// The public keys of the gateway, as the JWKS endpoint publishes them; an
/// empty list where the gateway has no key store.
pub fn jwks(store: Option<&KeyStore>) -> (r: Vec<Jwk>)
    ensures
        match store {
            None => r@.len() == 0,
            Some(s) => r@.len() == s.pairs().len() && forall|i: int|
                0 <= i < r@.len() ==> (#[trigger] r@[i])@ == jwk_of(s.pairs()[i].0, s.pairs()[i].1),
        },
{
    match store {
        Some(s) => s.to_jwks(),
        None => Vec::new(),
    }
}

/// The DID document of the gateway `did` with the keys of `store`.
pub fn did_document(did: &str, store: &KeyStore) -> (r: DidDocument)
    ensures
        r.id@ == did@,
        r.verification_method@.len() == store.pairs().len(),
        r.authentication@.len() == store.pairs().len(),
        r.assertion_method@.len() == store.pairs().len(),
        forall|i: int|
            0 <= i < store.pairs().len() ==> {
                let method = #[trigger] r.verification_method@[i];
                &&& method.id@ == key_ref(did@, i)
                &&& method.controller@ == did@
                &&& method.public_key_jwk@ == jwk_of(store.pairs()[i].0, store.pairs()[i].1)
            },
        forall|i: int|
            0 <= i < store.pairs().len() ==> (#[trigger] r.authentication@[i])@ == key_ref(did@, i),
        forall|i: int|
            0 <= i < store.pairs().len() ==> (#[trigger] r.assertion_method@[i])@ == key_ref(
                did@,
                i,
            ),
{
    let keys = store.all_keys();
    let n = keys.len();
    let mut methods: Vec<VerificationMethod> = Vec::new();
    let mut authentication: Vec<String> = Vec::new();
    let mut assertion_method: Vec<String> = Vec::new();
    let mut i: usize = 0;
    while i < n
        invariant
            i <= n,
            n == keys@.len(),
            key_pairs(keys@) == store.pairs(),
            methods@.len() == i,
            authentication@.len() == i,
            assertion_method@.len() == i,
            forall|j: int|
                0 <= j < i ==> {
                    let method = #[trigger] methods@[j];
                    &&& method.id@ == key_ref(did@, j)
                    &&& method.controller@ == did@
                    &&& method.public_key_jwk@ == jwk_of(store.pairs()[j].0, store.pairs()[j].1)
                },
            forall|j: int| 0 <= j < i ==> (#[trigger] authentication@[j])@ == key_ref(did@, j),
            forall|j: int| 0 <= j < i ==> (#[trigger] assertion_method@[j])@ == key_ref(did@, j),
        decreases n - i,
    {
        assert(key_pairs(keys@)[i as int] == (keys@[i as int].kid@, keys@[i as int].secret_key@));
        methods.push(
            VerificationMethod {
                id: key_ref_of(did, i),
                controller: String::from_str(did),
                public_key_jwk: keys[i].to_jwk(),
            },
        );
        authentication.push(key_ref_of(did, i));
        assertion_method.push(key_ref_of(did, i));
        i += 1;
    }
    DidDocument {
        id: String::from_str(did),
        verification_method: methods,
        authentication,
        assertion_method,
    }
}

} // verus!
