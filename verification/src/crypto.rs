//! Cryptography utility functions.
//!
//! The hash, MAC, key-derivation and base64 routines are not implemented
//! here: each is a call into the crate that provides it. What such a call
//! returns is given a name, and the rest of the library reasons about the
//! names only.

use base64::Engine;
use sha2::Digest;
use hmac::Mac;
use vstd::prelude::*;
use vstd::utf8::encode_utf8;

verus! {

/// The SHA-256 digest of `data`.
pub uninterp spec fn sha256(data: Seq<u8>) -> Seq<u8>;

/// The HMAC-SHA256 tag of `data` under `key`.
pub uninterp spec fn hmac_sha256(key: Seq<u8>, data: Seq<u8>) -> Seq<u8>;

/// The first 32 bytes of HKDF-SHA256 output for input keying material `ikm`
/// and context `info`, extracted without a salt.
pub uninterp spec fn hkdf_sha256(ikm: Seq<u8>, info: Seq<u8>) -> Seq<u8>;

/// The base64 text of `data`: standard alphabet, with padding.
pub uninterp spec fn base64_encode(data: Seq<u8>) -> Seq<char>;

/// The bytes that the base64 text `text` stands for, or `None` where it is not
/// canonical base64 in the standard alphabet with padding.
pub uninterp spec fn base64_decode(text: Seq<char>) -> Option<Seq<u8>>;

/// The error of `base64`'s decoder.
#[verifier::external_type_specification]
#[verifier::external_body]
pub struct ExBase64DecodeError(base64::DecodeError);

/// Trusted: `sha2::Sha256::digest`. The result is the 32-byte digest of the
/// whole input; it depends on the input alone.
#[verifier::external_body]
pub(crate) fn sha256_digest(data: &[u8]) -> (digest: [u8; 32])
    ensures
        digest@ == sha256(data@),
{
    sha2::Sha256::digest(data).into()
}

/// Trusted: `hmac::Hmac::<Sha256>` keyed with `key` (a key of any length is
/// accepted), fed `data` once and finalised. The result is the 32-byte tag; it
/// depends on the key and the data alone.
#[verifier::external_body]
pub(crate) fn hmac_sha256_tag(key: &[u8], data: &[u8]) -> (tag: [u8; 32])
    ensures
        tag@ == hmac_sha256(key@, data@),
{
    let mut mac = hmac::Hmac::<sha2::Sha256>::new_from_slice(key).expect("any key length");
    mac.update(data);
    mac.finalize().into_bytes().into()
}

/// Trusted: `hkdf::Hkdf::<Sha256>::new` without a salt, then `expand` into a
/// buffer of 32 bytes, a length that `expand` always accepts. The result
/// depends on `ikm` and `info` alone.
#[verifier::external_body]
pub(crate) fn hkdf_sha256_expand(ikm: &[u8], info: &[u8]) -> (okm: [u8; 32])
    ensures
        okm@ == hkdf_sha256(ikm@, info@),
{
    let hk = hkdf::Hkdf::<sha2::Sha256>::new(None, ikm);
    let mut okm = [0u8; 32];
    hk.expand(info, &mut okm).expect("32 bytes");
    okm
}

/// Trusted: `Engine::encode` of `base64`'s `STANDARD` engine. The text depends
/// on the input alone, and the same engine decodes it back to the input.
#[verifier::external_body]
pub(crate) fn base64_encode_text(data: &[u8]) -> (text: String)
    ensures
        text@ == base64_encode(data@),
        base64_decode(text@) == Some(data@),
{
    base64::engine::general_purpose::STANDARD.encode(data)
}

/// Trusted: `Engine::decode` of `base64`'s `STANDARD` engine. It returns the
/// decoded bytes, or its error where the text is not canonical padded base64;
/// which of the two depends on the text alone.
#[verifier::external_body]
pub(crate) fn base64_decode_text(text: &str) -> (decoded: Result<Vec<u8>, base64::DecodeError>)
    ensures
        match decoded {
            Ok(bytes) => base64_decode(text@) == Some(bytes@),
            Err(_) => base64_decode(text@) is None,
        },
{
    base64::engine::general_purpose::STANDARD.decode(text)
}

/// The base64 text of the SHA-256 digest of `data`.
pub open spec fn spec_sha256_base64(data: Seq<u8>) -> Seq<char> {
    base64_encode(sha256(data))
}

/// Computes the SHA-256 hash of `input` and returns it as base64 text.
///
/// This is a fast cryptographic hash, suitable for checksums and for
/// committing to public data. It is not a password hash.
pub fn sha256_base64(input: &str) -> (text: String)
    ensures
        text@ == spec_sha256_base64(encode_utf8(input@)),
{
    let digest = sha256_digest(input.as_bytes());
    base64_encode_text(digest.as_slice())
}

/// Computes the SHA-256 hash of `data` and returns it as base64 text.
pub fn sha256_base64_bytes(data: &[u8]) -> (text: String)
    ensures
        text@ == spec_sha256_base64(data@),
{
    let digest = sha256_digest(data);
    base64_encode_text(digest.as_slice())
}

} // verus!
