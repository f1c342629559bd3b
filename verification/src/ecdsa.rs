//! ES256 (ECDSA over P-256 with SHA-256) through the `p256` crate.
//!
//! A private key is held by this library as its raw scalar, big endian.
//! Signing with `p256` is deterministic (RFC 6979), so a signature is a
//! function of key and message and can be named.

use crate::codec::opt_bytes;
use vstd::prelude::*;
use vstd::string::*;

verus! {

/// The ES256 signature (`r` then `s`, 32 bytes each) of `message` under the
/// private scalar `secret`; `None` where `secret` is no P-256 private key.
pub uninterp spec fn es256_signature(secret: Seq<u8>, message: Seq<u8>) -> Option<Seq<u8>>;

/// The public point of the private scalar `secret` in uncompressed SEC1
/// form; `None` where `secret` is no P-256 private key.
pub uninterp spec fn p256_public_point(secret: Seq<u8>) -> Option<Seq<u8>>;

/// The private scalar of the P-256 key in the PKCS#8 PEM document `pem`;
/// `None` where `pem` holds no such key.
pub uninterp spec fn pkcs8_pem_scalar(pem: Seq<char>) -> Option<Seq<u8>>;

/// Builds a `p256::ecdsa::SigningKey` with `SigningKey::from_slice` and
/// signs with `Signer::try_sign`; `Signature::to_bytes` gives the fixed
/// 64-byte form. A key or signing error becomes `None`.
#[verifier::external_body]
pub(crate) fn sign(secret: &[u8], message: &[u8]) -> (r: Option<Vec<u8>>)
    ensures
        opt_bytes(r) == es256_signature(secret@, message@),
        r matches Some(sig) ==> sig@.len() == 64,
{
    let key = p256::ecdsa::SigningKey::from_slice(secret).ok()?;
    let sig: p256::ecdsa::Signature = p256::ecdsa::signature::Signer::try_sign(&key, message).ok()?;
    Some(sig.to_bytes().to_vec())
}

/// Builds a `p256::SecretKey` with `SecretKey::from_slice` and encodes its
/// public key with `to_encoded_point(false)`: the byte 4, then the two
/// coordinates, 32 bytes each.
#[verifier::external_body]
pub(crate) fn public_point(secret: &[u8]) -> (r: Option<Vec<u8>>)
    ensures
        opt_bytes(r) == p256_public_point(secret@),
        r matches Some(p) ==> p@.len() == 65 && p@[0] == 4,
{
    let key = p256::SecretKey::from_slice(secret).ok()?;
    let point = p256::elliptic_curve::sec1::ToEncodedPoint::to_encoded_point(&key.public_key(), false);
    Some(point.as_bytes().to_vec())
}

/// Reads a key with `SecretKey::from_pkcs8_pem` and serialises its scalar
/// with `SecretKey::to_bytes`, which has 32 bytes.
#[verifier::external_body]
pub(crate) fn scalar_from_pem(pem: &str) -> (r: Option<Vec<u8>>)
    ensures
        opt_bytes(r) == pkcs8_pem_scalar(pem@),
        r matches Some(k) ==> k@.len() == 32,
{
    let key = <p256::SecretKey as p256::pkcs8::DecodePrivateKey>::from_pkcs8_pem(pem).ok()?;
    Some(key.to_bytes().to_vec())
}

} // verus!
