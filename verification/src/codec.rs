//! Encodings used on the wire: base64, SHA-256 digests, percent-encoding and
//! JSON string literals.
//!
//! The functions marked `external_body` call the crates that implement these
//! encodings; their contracts are believed, not proved. What one of them
//! returns is named by a spec function without a body, so that two calls on
//! the same input are known to agree and nothing more.

use vstd::prelude::*;
use vstd::string::*;

verus! {

/// An optional byte vector as plain values.
pub open spec fn opt_bytes(r: Option<Vec<u8>>) -> Option<Seq<u8>> {
    match r {
        Some(v) => Some(v@),
        None => None,
    }
}

/// The longest input, in bytes, that this library hands to a base64 encoder.
/// The encoded length of anything this long fits in `usize` on every
/// platform.
pub const MAX_ENCODABLE: usize = 0x4000_0000;

/// URL-safe base64 without padding (RFC 4648 section 5) of `data`.
pub uninterp spec fn base64url(data: Seq<u8>) -> Seq<char>;

/// The bytes that `text` stands for in URL-safe base64 without padding, or
/// `None` where `text` is no such encoding.
pub uninterp spec fn base64url_decoded(text: Seq<u8>) -> Option<Seq<u8>>;

/// The bytes that `text` stands for in standard, padded base64, or `None`
/// where `text` is no such encoding.
pub uninterp spec fn base64_decoded(text: Seq<u8>) -> Option<Seq<u8>>;

/// The SHA-256 digest of `data`.
pub uninterp spec fn sha256(data: Seq<u8>) -> Seq<u8>;

/// The JSON string literal for `text`: quoted, with the escapes JSON needs.
pub uninterp spec fn json_quoted(text: Seq<char>) -> Seq<char>;

/// Calls `Engine::encode` of the `base64` crate on its `URL_SAFE_NO_PAD`
/// engine. The call panics only when the encoded length overflows `usize`,
/// which the bound on the input rules out.
#[verifier::external_body]
fn base64url_unchecked(data: &[u8]) -> (r: String)
    requires
        data@.len() <= MAX_ENCODABLE,
    ensures
        r@ == base64url(data@),
{
    base64::Engine::encode(&base64::engine::general_purpose::URL_SAFE_NO_PAD, data)
}

/// Calls `Engine::decode` of the `base64` crate on its `URL_SAFE_NO_PAD`
/// engine; a decoding error becomes `None`.
#[verifier::external_body]
pub(crate) fn base64url_decode(text: &[u8]) -> (r: Option<Vec<u8>>)
    ensures
        opt_bytes(r) == base64url_decoded(text@),
{
    base64::Engine::decode(&base64::engine::general_purpose::URL_SAFE_NO_PAD, text).ok()
}

/// Calls `Engine::decode` of the `base64` crate on its `STANDARD` engine; a
/// decoding error becomes `None`.
#[verifier::external_body]
pub(crate) fn base64_decode(text: &[u8]) -> (r: Option<Vec<u8>>)
    ensures
        opt_bytes(r) == base64_decoded(text@),
{
    base64::Engine::decode(&base64::engine::general_purpose::STANDARD, text).ok()
}

/// Calls `Sha256::digest` of the `sha2` crate. A SHA-256 digest has 32
/// bytes.
#[verifier::external_body]
pub(crate) fn sha256_digest(data: &[u8]) -> (r: Vec<u8>)
    ensures
        r@ == sha256(data@),
        r@.len() == 32,
{
    <sha2::Sha256 as sha2::Digest>::digest(data).to_vec()
}

/// Formats `serde_json::Value::String` with its `Display` impl, which
/// writes the compact JSON text of the value.
#[verifier::external_body]
pub(crate) fn json_quote(text: &str) -> (r: String)
    ensures
        r@ == json_quoted(text@),
{
    serde_json::Value::String(text.to_string()).to_string()
}

/// The bytes that `urlencoding::encode` keeps as they are: ASCII letters,
/// digits, `-`, `.`, `_` and `~`.
pub open spec fn unreserved(b: u8) -> bool {
    (0x30 <= b <= 0x39) || (0x41 <= b <= 0x5a) || (0x61 <= b <= 0x7a) || b == 0x2d || b == 0x2e
        || b == 0x5f || b == 0x7e
}

/// The upper-case hexadecimal digit for `d` (`d < 16`).
pub open spec fn hex_upper(d: u8) -> char {
    if d < 10 {
        (0x30 + d) as char
    } else {
        (0x41 + d - 10) as char
    }
}

/// One byte, percent-encoded.
pub open spec fn percent_encoded_byte(b: u8) -> Seq<char> {
    if unreserved(b) {
        seq![b as char]
    } else {
        seq!['%', hex_upper(b / 16), hex_upper(b % 16)]
    }
}

/// The percent-encoding of a byte string: every byte but the unreserved
/// ones becomes `%` and two upper-case hexadecimal digits.
pub open spec fn percent_encoded(bytes: Seq<u8>) -> Seq<char>
    decreases bytes.len(),
{
    if bytes.len() == 0 {
        Seq::empty()
    } else {
        percent_encoded_byte(bytes[0]) + percent_encoded(bytes.drop_first())
    }
}

/// Calls `urlencoding::encode`, which percent-encodes the UTF-8 bytes of
/// its argument, leaving only the unreserved bytes as they are.
#[verifier::external_body]
pub(crate) fn percent_encode(text: &str) -> (r: String)
    ensures
        r@ == percent_encoded(text.spec_bytes()),
{
    urlencoding::encode(text).into_owned()
}

/// URL-safe unpadded base64 of `data`, or `None` where `data` is longer
/// than [`MAX_ENCODABLE`].
pub fn base64url_encode(data: &[u8]) -> (r: Option<String>)
    ensures
        data@.len() <= MAX_ENCODABLE ==> r is Some && r->0@ == base64url(data@),
        data@.len() > MAX_ENCODABLE ==> r is None,
{
    if data.len() <= MAX_ENCODABLE {
        Some(base64url_unchecked(data))
    } else {
        None
    }
}

/// The bytes of `bytes` from `from` up to, not including, `to`.
pub fn sub_bytes(bytes: &Vec<u8>, from: usize, to: usize) -> (r: Vec<u8>)
    requires
        from <= to <= bytes.len(),
    ensures
        r@ == bytes@.subrange(from as int, to as int),
{
    let mut out: Vec<u8> = Vec::new();
    let mut i: usize = from;
    while i < to
        invariant
            from <= i <= to <= bytes.len(),
            out@ == bytes@.subrange(from as int, i as int),
        decreases to - i,
    {
        out.push(bytes[i]);
        assert(bytes@.subrange(from as int, i + 1) == bytes@.subrange(from as int, i as int).push(
            bytes@[i as int],
        ));
        i += 1;
    }
    out
}

/// A copy of a byte string.
pub fn copy_bytes(bytes: &Vec<u8>) -> (r: Vec<u8>)
    ensures
        r@ == bytes@,
{
    let out = sub_bytes(bytes, 0, bytes.len());
    assert(bytes@.subrange(0, bytes.len() as int) == bytes@);
    out
}

} // verus!
