//! The gateway's own signing keys.
//!
//! Every key is an ES256 (P-256) private key with a key identifier. One of
//! them is active and signs what the gateway issues; all of them are
//! published, so that tokens signed before a rotation still verify.
//!
//! The library does not read files: it is given the PEM text of each
//! configured key.

use crate::codec::{
    base64_decode,
    base64_decoded,
    base64url,
    base64url_encode,
    copy_bytes,
    sub_bytes,
};
use crate::ecdsa::{p256_public_point, pkcs8_pem_scalar, public_point, scalar_from_pem};
use crate::error::{AppError, ErrorKind};
use crate::text::{chars_of, chars_start_with, concat, str_eq};
use vstd::prelude::*;
use vstd::string::*;
use vstd::utf8::{encode_utf8, valid_utf8};

verus! {

/// The identifier of a key that is configured on its own, without a list
/// of key files.
pub open spec fn legacy_kid() -> Seq<char> {
    "catbird-key-1"@
}

/// A signing key: its identifier and its private scalar, big endian.
#[derive(Debug)]
pub struct SigningKey {
    pub kid: String,
    pub secret_key: Vec<u8>,
}

/// A key file: where it is and the PEM text it holds.
#[derive(Debug)]
pub struct KeyFile {
    pub path: String,
    pub pem: String,
}

/// The public half of a signing key as it is published in a JWKS.
#[derive(Debug)]
pub struct Jwk {
    pub kty: String,
    pub crv: String,
    /// The `use` member.
    pub key_use: String,
    pub kid: String,
    pub x: String,
    pub y: String,
}

/// [`Jwk`] as plain values.
pub struct JwkView {
    pub kty: Seq<char>,
    pub crv: Seq<char>,
    pub key_use: Seq<char>,
    pub kid: Seq<char>,
    pub x: Seq<char>,
    pub y: Seq<char>,
}

impl View for Jwk {
    type V = JwkView;

    open spec fn view(&self) -> JwkView {
        JwkView {
            kty: self.kty@,
            crv: self.crv@,
            key_use: self.key_use@,
            kid: self.kid@,
            x: self.x@,
            y: self.y@,
        }
    }
}

/// Keys as pairs of identifier and private scalar.
pub type KeyPairs = Seq<(Seq<char>, Seq<u8>)>;

/// The final component of `path` without its extension, as
/// `std::path::Path::file_stem` gives it; `None` where the path has no
/// such component.
pub uninterp spec fn path_file_stem(path: Seq<char>) -> Option<Seq<char>>;

/// Calls `std::path::Path::file_stem` and hands the stem on as text.
#[verifier::external_body]
fn file_stem(path: &str) -> (r: Option<String>)
    ensures
        r.deep_view() == path_file_stem(path@),
{
    std::path::Path::new(path).file_stem().and_then(|s| s.to_str()).map(str::to_owned)
}

/// Calls `String::from_utf8`: the text whose UTF-8 encoding the bytes are,
/// or `None` where they are not valid UTF-8.
#[verifier::external_body]
fn text_from_utf8(bytes: Vec<u8>) -> (r: Option<String>)
    ensures
        match r {
            Some(s) => valid_utf8(bytes@) && encode_utf8(s@) == bytes@,
            None => !valid_utf8(bytes@),
        },
{
    String::from_utf8(bytes).ok()
}

/// The key identifier for a file name's stem: the stem (`key` where there
/// is none), with `catbird-` put before it unless it begins so.
pub open spec fn kid_of_stem(stem: Option<Seq<char>>) -> Seq<char> {
    let name = match stem {
        Some(s) => s,
        None => "key"@,
    };
    if "catbird-"@.is_prefix_of(name) {
        name
    } else {
        "catbird-"@ + name
    }
}

/// The key identifier for a key file: that of the stem of its file name.
pub open spec fn kid_of_path(path: Seq<char>) -> Seq<char> {
    kid_of_stem(path_file_stem(path))
}

/// Derives the key identifier from the path of a key file, so that
/// `/keys/key1.pem` gives `catbird-key1`.
pub fn derive_kid_from_path(path: &str) -> (r: String)
    ensures
        r@ == kid_of_path(path@),
{
    derive_kid_from_stem(file_stem(path))
}

/// Derives the key identifier from the stem of a key file's name, so that
/// `key1` gives `catbird-key1`.
pub fn derive_kid_from_stem(stem: Option<String>) -> (r: String)
    ensures
        r@ == kid_of_stem(stem.deep_view()),
{
    let stem = match stem {
        Some(s) => s,
        None => String::from_str("key"),
    };
    let prefix = chars_of("catbird-");
    if chars_start_with(&chars_of(stem.as_str()), &prefix) {
        stem
    } else {
        concat("catbird-", stem.as_str())
    }
}

/// `keys` without the key `kid`.
pub open spec fn without_key(keys: KeyPairs, kid: Seq<char>) -> KeyPairs
    decreases keys.len(),
{
    if keys.len() == 0 {
        keys
    } else {
        let rest = without_key(keys.drop_last(), kid);
        if keys.last().0 == kid {
            rest
        } else {
            rest.push(keys.last())
        }
    }
}

/// `keys` with the key `kid` set to `secret`: what was there under this
/// identifier is replaced.
pub open spec fn with_key(keys: KeyPairs, kid: Seq<char>, secret: Seq<u8>) -> KeyPairs {
    without_key(keys, kid).push((kid, secret))
}

/// The keys of the given files, in order: a file that holds no P-256 key
/// in PKCS#8 PEM is a `Crypto` error.
pub open spec fn keys_of_files(files: Seq<KeyFile>) -> Result<KeyPairs, ErrorKind>
    decreases files.len(),
{
    if files.len() == 0 {
        Ok(Seq::empty())
    } else {
        match keys_of_files(files.drop_last()) {
            Err(kind) => Err(kind),
            Ok(keys) => match pkcs8_pem_scalar(files.last().pem@) {
                None => Err(ErrorKind::Crypto),
                Some(secret) => Ok(with_key(keys, kid_of_path(files.last().path@), secret)),
            },
        }
    }
}

/// The PEM text of a key that is configured on its own: the base64 form
/// where there is one (a `Config` error where it is not base64 of UTF-8
/// text), else the text of the key file, else none.
pub open spec fn legacy_pem(base64: Option<Seq<char>>, file: Option<Seq<char>>) -> Result<
    Option<Seq<char>>,
    ErrorKind,
> {
    match base64 {
        Some(b) => match base64_decoded(encode_utf8(b)) {
            None => Err(ErrorKind::Config),
            Some(bytes) => if valid_utf8(bytes) {
                Ok(Some(vstd::utf8::decode_utf8(bytes)))
            } else {
                Err(ErrorKind::Config)
            },
        },
        None => Ok(file),
    }
}

/// The key that is configured on its own, if any.
pub open spec fn legacy_key(base64: Option<Seq<char>>, file: Option<Seq<char>>) -> Result<
    Option<Seq<u8>>,
    ErrorKind,
> {
    match legacy_pem(base64, file) {
        Err(kind) => Err(kind),
        Ok(None) => Ok(None),
        Ok(Some(pem)) => match pkcs8_pem_scalar(pem) {
            None => Err(ErrorKind::Crypto),
            Some(secret) => Ok(Some(secret)),
        },
    }
}

/// The keys a configuration yields: those of the key files, or, where
/// there are none, the one key configured on its own. No key at all is a
/// `Config` error, and so is an active key that is not among them.
pub open spec fn configured_keys(
    files: Seq<KeyFile>,
    base64: Option<Seq<char>>,
    file: Option<Seq<char>>,
    active: Seq<char>,
) -> Result<KeyPairs, ErrorKind> {
    match keys_of_files(files) {
        Err(kind) => Err(kind),
        Ok(listed) => {
            let all = if listed.len() > 0 {
                Ok(listed)
            } else {
                match legacy_key(base64, file) {
                    Err(kind) => Err(kind),
                    Ok(None) => Ok(listed),
                    Ok(Some(secret)) => Ok(seq![(legacy_kid(), secret)]),
                }
            };
            match all {
                Err(kind) => Err(kind),
                Ok(keys) => if keys.len() == 0 || !has_key(keys, active) {
                    Err(ErrorKind::Config)
                } else {
                    Ok(keys)
                },
            }
        },
    }
}

/// Some key in `keys` has the identifier `kid`.
pub open spec fn has_key(keys: KeyPairs, kid: Seq<char>) -> bool {
    exists|i: int| 0 <= i < keys.len() && (#[trigger] keys[i]).0 == kid
}

/// No identifier occurs twice.
pub open spec fn distinct_kids(keys: KeyPairs) -> bool {
    forall|i: int, j: int| 0 <= i < j < keys.len() ==> (#[trigger] keys[i]).0 != (#[trigger] keys[j]).0
}

/// The published form of a key: the coordinates of its public point in
/// base64url, or empty coordinates where the scalar is no private key.
pub open spec fn jwk_of(kid: Seq<char>, secret: Seq<u8>) -> JwkView {
    let (x, y) = match p256_public_point(secret) {
        Some(p) => (base64url(p.subrange(1, 33)), base64url(p.subrange(33, 65))),
        None => (Seq::empty(), Seq::empty()),
    };
    JwkView { kty: "EC"@, crv: "P-256"@, key_use: "sig"@, kid, x, y }
}

/// A signing key configured on its own rather than as one of a list of
/// key files: inline, in base64, or as a single file.
#[derive(Debug)]
pub struct CryptoService {
    /// The configured `private_key_base64`.
    pub private_key_base64: Option<String>,
    /// The text of the file at the configured `private_key_path`.
    pub private_key_file: Option<String>,
}

fn encode_part(bytes: &Vec<u8>, from: usize, to: usize) -> (r: String)
    requires
        from <= to <= bytes.len(),
        to - from <= 64,
    ensures
        r@ == base64url(bytes@.subrange(from as int, to as int)),
{
    let part = sub_bytes(bytes, from, to);
    match base64url_encode(part.as_slice()) {
        Some(s) => s,
        None => String::new(),
    }
}

impl SigningKey {
    /// A copy of this key.
    pub fn duplicate(&self) -> (r: SigningKey)
        ensures
            r.kid@ == self.kid@,
            r.secret_key@ == self.secret_key@,
    {
        SigningKey { kid: self.kid.clone(), secret_key: copy_bytes(&self.secret_key) }
    }

    /// The public half of this key in its published form.
    pub fn to_jwk(&self) -> (r: Jwk)
        ensures
            r@ == jwk_of(self.kid@, self.secret_key@),
    {
        let (x, y) = match public_point(self.secret_key.as_slice()) {
            Some(p) => (encode_part(&p, 1, 33), encode_part(&p, 33, 65)),
            None => (String::new(), String::new()),
        };
        Jwk {
            kty: String::from_str("EC"),
            crv: String::from_str("P-256"),
            key_use: String::from_str("sig"),
            kid: self.kid.clone(),
            x,
            y,
        }
    }
}

impl CryptoService {
    /// A service over the single configured key.
    pub fn new(private_key_base64: Option<String>, private_key_file: Option<String>) -> (r:
        CryptoService)
        ensures
            r.private_key_base64 == private_key_base64,
            r.private_key_file == private_key_file,
    {
        CryptoService { private_key_base64, private_key_file }
    }

    /// The PEM text of the configured key, if any.
    pub fn find_private_key_pem(&self) -> (r: Result<Option<String>, AppError>)
        ensures
            match legacy_pem(self.private_key_base64.deep_view(), self.private_key_file.deep_view()) {
                Ok(pem) => r matches Ok(p) && p.deep_view() == pem,
                Err(kind) => r matches Err(e) && e@.kind == kind,
            },
    {
        match &self.private_key_base64 {
            Some(b) => {
                let bytes = match base64_decode(b.as_str().as_bytes()) {
                    Some(bytes) => bytes,
                    None => {
                        return Err(AppError::Config(String::from_str("Invalid base64 private key")));
                    },
                };
                let ghost decoded = bytes@;
                match text_from_utf8(bytes) {
                    Some(pem) => {
                        proof {
                            vstd::utf8::encode_utf8_decode_utf8(pem@);
                        }
                        Ok(Some(pem))
                    },
                    None => Err(AppError::Config(String::from_str("Invalid PEM encoding"))),
                }
            },
            None => match &self.private_key_file {
                Some(pem) => Ok(Some(pem.clone())),
                None => Ok(None),
            },
        }
    }

    /// The PEM text of the configured key; a `Config` error where none is
    /// configured.
    pub fn load_private_key_pem(&self) -> (r: Result<String, AppError>)
        ensures
            match legacy_pem(self.private_key_base64.deep_view(), self.private_key_file.deep_view()) {
                Ok(Some(pem)) => r matches Ok(p) && p@ == pem,
                Ok(None) => r matches Err(e) && e@.kind == ErrorKind::Config,
                Err(kind) => r matches Err(e) && e@.kind == kind,
            },
    {
        match self.find_private_key_pem() {
            Ok(Some(pem)) => Ok(pem),
            Ok(None) => Err(AppError::Config(String::from_str("OAuth private key not configured"))),
            Err(e) => Err(e),
        }
    }

    /// The private scalar of the configured key; a `Crypto` error where
    /// the PEM text holds no P-256 key.
    pub fn load_private_key(&self) -> (r: Result<Vec<u8>, AppError>)
        ensures
            match legacy_key(self.private_key_base64.deep_view(), self.private_key_file.deep_view()) {
                Ok(Some(secret)) => r matches Ok(s) && s@ == secret,
                Ok(None) => r matches Err(e) && e@.kind == ErrorKind::Config,
                Err(kind) => r matches Err(e) && e@.kind == kind,
            },
    {
        let pem = match self.load_private_key_pem() {
            Ok(p) => p,
            Err(e) => {
                return Err(e);
            },
        };
        match scalar_from_pem(pem.as_str()) {
            Some(s) => Ok(s),
            None => Err(AppError::Crypto(String::from_str("Failed to parse private key"))),
        }
    }
}

/// The gateway's signing keys, one of them active.
#[derive(Debug)]
pub struct KeyStore {
    keys: Vec<SigningKey>,
    active: usize,
}

/// Signing keys as pairs of identifier and private scalar.
pub open spec fn key_pairs(keys: Seq<SigningKey>) -> KeyPairs {
    keys.map_values(|k: SigningKey| (k.kid@, k.secret_key@))
}

proof fn key_pairs_take(keys: Seq<SigningKey>, i: int)
    requires
        0 <= i < keys.len(),
    ensures
        key_pairs(keys).take(i + 1).drop_last() == key_pairs(keys).take(i),
        key_pairs(keys).take(i + 1).last() == (keys[i].kid@, keys[i].secret_key@),
{
    assert(key_pairs(keys).take(i + 1).drop_last() =~= key_pairs(keys).take(i));
}

proof fn without_key_facts(keys: KeyPairs, kid: Seq<char>)
    requires
        distinct_kids(keys),
    ensures
        distinct_kids(without_key(keys, kid)),
        !has_key(without_key(keys, kid), kid),
        forall|i: int|
            0 <= i < without_key(keys, kid).len() ==> has_key(
                keys,
                (#[trigger] without_key(keys, kid)[i]).0,
            ),
        without_key(keys, kid).len() <= keys.len(),
    decreases keys.len(),
{
    if keys.len() > 0 {
        let front = keys.drop_last();
        assert forall|i: int, j: int| 0 <= i < j < front.len() implies (#[trigger] front[i]).0 != (
        #[trigger] front[j]).0 by {
            assert(front[i] == keys[i] && front[j] == keys[j]);
        }
        without_key_facts(front, kid);
        let rest = without_key(front, kid);
        let out = without_key(keys, kid);
        assert forall|i: int| 0 <= i < rest.len() implies has_key(keys, (#[trigger] rest[i]).0) by {
            let k = choose|k: int| 0 <= k < front.len() && (#[trigger] front[k]).0 == rest[i].0;
            assert(keys[k] == front[k]);
        }
        if keys.last().0 != kid {
            assert(out == rest.push(keys.last()));
            assert forall|i: int, j: int| 0 <= i < j < out.len() implies (#[trigger] out[i]).0 != (
            #[trigger] out[j]).0 by {
                if j == rest.len() {
                    assert(out[i] == rest[i]);
                    let k = choose|k: int|
                        0 <= k < front.len() && (#[trigger] front[k]).0 == rest[i].0;
                    assert(keys[k] == front[k]);
                    assert(keys[keys.len() - 1] == keys.last());
                } else {
                    assert(out[i] == rest[i] && out[j] == rest[j]);
                }
            }
            assert forall|i: int| 0 <= i < out.len() implies has_key(keys, (#[trigger] out[i]).0) by {
                if i < rest.len() {
                    assert(out[i] == rest[i]);
                } else {
                    assert(keys[keys.len() - 1] == keys.last());
                }
            }
            if has_key(out, kid) {
                let i = choose|i: int| 0 <= i < out.len() && (#[trigger] out[i]).0 == kid;
                if i < rest.len() {
                    assert(out[i] == rest[i]);
                }
            }
        }
    }
}

/// The index of the key `kid`, if there is one.
fn position(keys: &Vec<SigningKey>, kid: &str) -> (r: Option<usize>)
    ensures
        match r {
            Some(i) => i < keys.len() && keys[i as int].kid@ == kid@,
            None => !has_key(key_pairs(keys@), kid@),
        },
{
    let mut i: usize = 0;
    while i < keys.len()
        invariant
            i <= keys.len(),
            forall|j: int| 0 <= j < i ==> (#[trigger] key_pairs(keys@)[j]).0 != kid@,
        decreases keys.len() - i,
    {
        if str_eq(keys[i].kid.as_str(), kid) {
            return Some(i);
        }
        i += 1;
    }
    None
}

/// Sets a key: what was there under its identifier is replaced.
fn set_key(keys: Vec<SigningKey>, key: SigningKey) -> (r: Vec<SigningKey>)
    ensures
        key_pairs(r@) == with_key(key_pairs(keys@), key.kid@, key.secret_key@),
{
    let mut out: Vec<SigningKey> = Vec::new();
    let mut i: usize = 0;
    while i < keys.len()
        invariant
            i <= keys.len(),
            key_pairs(out@) == without_key(key_pairs(keys@).take(i as int), key.kid@),
        decreases keys.len() - i,
    {
        let ghost before = key_pairs(out@);
        proof {
            key_pairs_take(keys@, i as int);
        }
        if !str_eq(keys[i].kid.as_str(), key.kid.as_str()) {
            out.push(keys[i].duplicate());
            assert(key_pairs(out@) =~= before.push((keys[i as int].kid@, keys[i as int].secret_key@)));
        }
        i += 1;
    }
    assert(key_pairs(keys@).take(keys.len() as int) == key_pairs(keys@));
    let ghost dropped = key_pairs(out@);
    let ghost pair = (key.kid@, key.secret_key@);
    out.push(key);
    assert(key_pairs(out@) =~= dropped.push(pair));
    out
}

fn load_files(files: &Vec<KeyFile>) -> (r: Result<Vec<SigningKey>, AppError>)
    ensures
        match keys_of_files(files@) {
            Ok(keys) => r matches Ok(k) && key_pairs(k@) == keys,
            Err(kind) => r matches Err(e) && e@.kind == kind,
        },
{
    let mut keys: Vec<SigningKey> = Vec::new();
    let mut i: usize = 0;
    assert(files@.take(0) =~= Seq::<KeyFile>::empty());
    assert(key_pairs(keys@) =~= Seq::empty());
    while i < files.len()
        invariant
            i <= files.len(),
            keys_of_files(files@.take(i as int)) == Ok::<KeyPairs, ErrorKind>(key_pairs(keys@)),
        decreases files.len() - i,
    {
        assert(files@.take(i + 1).drop_last() == files@.take(i as int));
        assert(files@.take(i + 1).last() == files@[i as int]);
        let secret = match scalar_from_pem(files[i].pem.as_str()) {
            Some(s) => s,
            None => {
                proof {
                    lemma_failure_sticks(files@, i + 1);
                }
                return Err(AppError::Crypto(String::from_str("Failed to parse key")));
            },
        };
        let kid = derive_kid_from_path(files[i].path.as_str());
        keys = set_key(keys, SigningKey { kid, secret_key: secret });
        i += 1;
    }
    assert(files@.take(files.len() as int) == files@);
    Ok(keys)
}

/// Once a prefix of the files fails to load, so does the whole list.
proof fn lemma_failure_sticks(files: Seq<KeyFile>, n: int)
    requires
        0 <= n <= files.len(),
        keys_of_files(files.take(n)) is Err,
    ensures
        keys_of_files(files) == keys_of_files(files.take(n)),
    decreases files.len() - n,
{
    if n < files.len() {
        assert(files.take(n + 1).drop_last() == files.take(n));
        lemma_failure_sticks(files, n + 1);
    } else {
        assert(files.take(n) == files);
    }
}

/// Whatever the files, the keys they yield have distinct identifiers.
proof fn lemma_files_distinct(files: Seq<KeyFile>)
    ensures
        keys_of_files(files) matches Ok(keys) ==> distinct_kids(keys),
    decreases files.len(),
{
    if files.len() > 0 {
        lemma_files_distinct(files.drop_last());
        match keys_of_files(files.drop_last()) {
            Ok(keys) => {
                match pkcs8_pem_scalar(files.last().pem@) {
                    Some(secret) => {
                        let kid = kid_of_path(files.last().path@);
                        without_key_facts(keys, kid);
                        let rest = without_key(keys, kid);
                        let out = with_key(keys, kid, secret);
                        assert forall|i: int, j: int| 0 <= i < j < out.len() implies (
                        #[trigger] out[i]).0 != (#[trigger] out[j]).0 by {
                            if j == rest.len() {
                                assert(out[i] == rest[i]);
                            } else {
                                assert(out[i] == rest[i] && out[j] == rest[j]);
                            }
                        }
                    },
                    None => {},
                }
            },
            Err(_) => {},
        }
    }
}

/// The keys that are held after `keys` were set one after the other: of
/// two keys with one identifier, the later stands.
pub open spec fn keys_set(keys: KeyPairs) -> KeyPairs
    decreases keys.len(),
{
    if keys.len() == 0 {
        keys
    } else {
        with_key(keys_set(keys.drop_last()), keys.last().0, keys.last().1)
    }
}

/// The keys of a store whose active key is `active`: there must be a key,
/// and the active key must be one of them, else there is a `Config` error.
pub open spec fn keys_with_active(keys: KeyPairs, active: Seq<char>) -> Result<KeyPairs, ErrorKind> {
    if keys.len() == 0 || !has_key(keys, active) {
        Err(ErrorKind::Config)
    } else {
        Ok(keys)
    }
}

proof fn lemma_set_distinct(keys: KeyPairs)
    ensures
        distinct_kids(keys_set(keys)),
    decreases keys.len(),
{
    if keys.len() > 0 {
        lemma_set_distinct(keys.drop_last());
        let base = keys_set(keys.drop_last());
        let kid = keys.last().0;
        without_key_facts(base, kid);
        let rest = without_key(base, kid);
        let out = with_key(base, kid, keys.last().1);
        assert forall|i: int, j: int| 0 <= i < j < out.len() implies (#[trigger] out[i]).0 != (
        #[trigger] out[j]).0 by {
            if j == rest.len() {
                assert(out[i] == rest[i]);
            } else {
                assert(out[i] == rest[i] && out[j] == rest[j]);
            }
        }
    }
}

impl KeyStore {
    /// The keys, as pairs of identifier and private scalar.
    pub closed spec fn pairs(&self) -> KeyPairs {
        key_pairs(self.keys@)
    }

    /// The identifier of the active key.
    pub closed spec fn active_kid(&self) -> Seq<char> {
        self.keys@[self.active as int].kid@
    }

    /// The store holds at least one key, no identifier twice, and its
    /// active key is one of them. Every store is so.
    #[verifier::type_invariant]
    pub closed spec fn wf(&self) -> bool {
        &&& self.active < self.keys@.len()
        &&& distinct_kids(key_pairs(self.keys@))
    }

    /// In a well-formed store the active key is one of its keys.
    pub proof fn active_is_held(&self)
        requires
            self.wf(),
        ensures
            has_key(self.pairs(), self.active_kid()),
            self.pairs().len() > 0,
            distinct_kids(self.pairs()),
    {
        assert(key_pairs(self.keys@)[self.active as int].0 == self.active_kid());
    }

    /// A key store of the given keys, with `active_key_id` naming the key
    /// that signs. Of two keys with one identifier the later stands.
    pub fn from_keys(keys: &Vec<SigningKey>, active_key_id: &str) -> (r: Result<KeyStore, AppError>)
        ensures
            match keys_with_active(keys_set(key_pairs(keys@)), active_key_id@) {
                Ok(held) => r matches Ok(store) && store.wf() && store.pairs() == held
                    && store.active_kid() == active_key_id@,
                Err(kind) => r matches Err(e) && e@.kind == kind,
            },
    {
        let mut held: Vec<SigningKey> = Vec::new();
        let mut i: usize = 0;
        assert(key_pairs(keys@).take(0) =~= Seq::empty());
        assert(key_pairs(held@) =~= Seq::empty());
        while i < keys.len()
            invariant
                i <= keys.len(),
                key_pairs(held@) == keys_set(key_pairs(keys@).take(i as int)),
            decreases keys.len() - i,
        {
            proof {
                key_pairs_take(keys@, i as int);
            }
            held = set_key(held, keys[i].duplicate());
            i += 1;
        }
        assert(key_pairs(keys@).take(keys.len() as int) == key_pairs(keys@));
        proof {
            lemma_set_distinct(key_pairs(keys@));
        }
        if held.len() == 0 {
            return Err(AppError::Config(String::from_str("No OAuth private keys configured")));
        }
        match position(&held, active_key_id) {
            Some(active) => {
                assert(key_pairs(held@)[active as int].0 == active_key_id@);
                Ok(KeyStore { keys: held, active })
            },
            None => Err(AppError::Config(String::from_str("Active key not found in loaded keys"))),
        }
    }

    /// Builds the key store of a configuration: from the key files, or,
    /// where none is given, from the key configured on its own, which
    /// gets the identifier `catbird-key-1`. `active_key_id` names the key
    /// that signs.
    pub fn from_config(files: &Vec<KeyFile>, legacy: &CryptoService, active_key_id: &str) -> (r:
        Result<KeyStore, AppError>)
        ensures
            match configured_keys(
                files@,
                legacy.private_key_base64.deep_view(),
                legacy.private_key_file.deep_view(),
                active_key_id@,
            ) {
                Ok(keys) => r matches Ok(store) && store.wf() && store.pairs() == keys
                    && store.active_kid() == active_key_id@,
                Err(kind) => r matches Err(e) && e@.kind == kind,
            },
    {
        let mut keys = match load_files(files) {
            Ok(k) => k,
            Err(e) => {
                return Err(e);
            },
        };
        proof {
            lemma_files_distinct(files@);
        }
        if keys.len() == 0 {
            match legacy.find_private_key_pem() {
                Err(e) => {
                    return Err(e);
                },
                Ok(None) => {},
                Ok(Some(pem)) => {
                    let secret = match scalar_from_pem(pem.as_str()) {
                        Some(s) => s,
                        None => {
                            return Err(
                                AppError::Crypto(String::from_str("Failed to parse private key")),
                            );
                        },
                    };
                    keys.push(
                        SigningKey { kid: String::from_str("catbird-key-1"), secret_key: secret },
                    );
                    assert(key_pairs(keys@) =~= seq![(legacy_kid(), secret@)]);
                },
            }
        }
        if keys.len() == 0 {
            return Err(AppError::Config(String::from_str("No OAuth private keys configured")));
        }
        match position(&keys, active_key_id) {
            Some(active) => {
                assert(key_pairs(keys@)[active as int].0 == active_key_id@);
                Ok(KeyStore { keys, active })
            },
            None => Err(AppError::Config(String::from_str("Active key not found in loaded keys"))),
        }
    }

    /// The key that signs what the gateway issues.
    pub fn active_key(&self) -> (r: SigningKey)
        ensures
            self.wf(),
            r.kid@ == self.active_kid(),
            has_key(self.pairs(), r.kid@),
            exists|i: int|
                0 <= i < self.pairs().len() && #[trigger] self.pairs()[i] == (r.kid@, r.secret_key@),
    {
        proof {
            use_type_invariant(self);
        }
        assert(key_pairs(self.keys@)[self.active as int] == (
            self.keys@[self.active as int].kid@,
            self.keys@[self.active as int].secret_key@,
        ));
        self.keys[self.active].duplicate()
    }

    /// All keys, for publication.
    pub fn all_keys(&self) -> (r: Vec<SigningKey>)
        ensures
            key_pairs(r@) == self.pairs(),
    {
        let mut out: Vec<SigningKey> = Vec::new();
        let mut i: usize = 0;
        while i < self.keys.len()
            invariant
                i <= self.keys.len(),
                key_pairs(out@) == key_pairs(self.keys@).take(i as int),
            decreases self.keys.len() - i,
        {
            let ghost before = key_pairs(out@);
            out.push(self.keys[i].duplicate());
            assert(key_pairs(out@) =~= before.push(
                (self.keys@[i as int].kid@, self.keys@[i as int].secret_key@),
            ));
            assert(key_pairs(self.keys@).take(i + 1) =~= key_pairs(self.keys@).take(i as int).push(
                (self.keys@[i as int].kid@, self.keys@[i as int].secret_key@),
            ));
            i += 1;
        }
        assert(key_pairs(self.keys@).take(self.keys.len() as int) == key_pairs(self.keys@));
        out
    }

    /// The key `kid`, if the store holds it.
    pub fn get_key(&self, kid: &str) -> (r: Option<SigningKey>)
        ensures
            match r {
                Some(key) => key.kid@ == kid@ && exists|i: int|
                    0 <= i < self.pairs().len() && #[trigger] self.pairs()[i] == (
                        kid@,
                        key.secret_key@,
                    ),
                None => !has_key(self.pairs(), kid@),
            },
    {
        match position(&self.keys, kid) {
            Some(i) => {
                let key = self.keys[i].duplicate();
                assert(self.pairs()[i as int] == (kid@, key.secret_key@));
                Some(key)
            },
            None => None,
        }
    }

    /// The public halves of all keys, as the JWKS endpoint publishes them.
    pub fn to_jwks(&self) -> (r: Vec<Jwk>)
        ensures
            r@.len() == self.pairs().len(),
            forall|i: int|
                0 <= i < r@.len() ==> (#[trigger] r@[i])@ == jwk_of(
                    self.pairs()[i].0,
                    self.pairs()[i].1,
                ),
    {
        let mut out: Vec<Jwk> = Vec::new();
        let mut i: usize = 0;
        while i < self.keys.len()
            invariant
                i <= self.keys.len(),
                out@.len() == i,
                forall|j: int|
                    0 <= j < i ==> (#[trigger] out@[j])@ == jwk_of(
                        key_pairs(self.keys@)[j].0,
                        key_pairs(self.keys@)[j].1,
                    ),
            decreases self.keys.len() - i,
        {
            out.push(self.keys[i].to_jwk());
            i += 1;
        }
        out
    }
}

} // verus!
