//! Digests, signatures, sealed boxes and random bytes.

use vstd::prelude::*;

verus! {

/// The SHA-256 digest of `bytes`.
pub uninterp spec fn sha256_digest(bytes: Seq<u8>) -> Seq<u8>;

/// Calls `sha2::Sha256::digest`. The claim: the digest depends on the bytes alone and has 32
/// bytes.
#[verifier::external_body]
pub(crate) fn sha256(bytes: &[u8]) -> (r: Vec<u8>)
    ensures
        r@ == sha256_digest(bytes@),
        r@.len() == 32,
{
    <sha2::Sha256 as sha2::Digest>::digest(bytes).to_vec()
}

/// The HMAC-SHA256 tag of `message` under `key`.
pub uninterp spec fn hmac_sha256(key: Seq<u8>, message: Seq<u8>) -> Seq<u8>;

/// Calls `hmac::Mac::verify_slice` on a `hmac::Hmac<sha2::Sha256>`, which takes a key of any
/// length and compares in constant time. The claim: it accepts exactly the tag of the message.
#[verifier::external_body]
pub(crate) fn hmac_verifies(key: &[u8], message: &[u8], candidate: &[u8]) -> (r: bool)
    ensures
        r == (candidate@ == hmac_sha256(key@, message@)),
{
    <hmac::Hmac<sha2::Sha256> as hmac::Mac>::new_from_slice(key)
        .map(|mac| hmac::Mac::chain_update(mac, message))
        .is_ok_and(|mac| hmac::Mac::verify_slice(mac, candidate).is_ok())
}

/// The largest message and the largest associated data that AES-256-GCM seals.
pub open spec fn seal_limit() -> int {
    0x10_0000_0000
}

/// What AES-256-GCM makes of a message under a key, a nonce and associated data.
pub uninterp spec fn sealed_bytes(
    key: Seq<u8>,
    nonce: Seq<u8>,
    message: Seq<u8>,
    associated: Seq<u8>,
) -> Seq<u8>;

/// What AES-256-GCM recovers from a ciphertext; `None` where the tag does not verify.
pub uninterp spec fn opened_bytes(
    key: Seq<u8>,
    nonce: Seq<u8>,
    ciphertext: Seq<u8>,
    associated: Seq<u8>,
) -> Option<Seq<u8>>;

/// Calls `aes_gcm::Aes256Gcm::encrypt`. The claim: it succeeds on inputs within the cipher's
/// limits and on no others, the result depends on the four inputs alone, and opening it under the
/// same key, nonce and associated data gives the message back.
#[verifier::external_body]
pub(crate) fn aes_seal(key: &[u8], nonce: &[u8], message: &[u8], associated: &[u8]) -> (r: Option<
    Vec<u8>,
>)
    requires
        key@.len() == 32,
        nonce@.len() == 12,
    ensures
        r is Some == (message@.len() <= seal_limit() && associated@.len() <= seal_limit()),
        r is Some ==> r->0@ == sealed_bytes(key@, nonce@, message@, associated@),
        r is Some ==> opened_bytes(key@, nonce@, r->0@, associated@) == Some(message@),
{
    let cipher = <aes_gcm::Aes256Gcm as aes_gcm::KeyInit>::new_from_slice(key).ok()?;
    let payload = aes_gcm::aead::Payload { msg: message, aad: associated };
    aes_gcm::aead::Aead::encrypt(&cipher, aes_gcm::Nonce::from_slice(nonce), payload).ok()
}

/// Calls `aes_gcm::Aes256Gcm::decrypt`. The claim: the result depends on the four inputs alone.
/// That a ciphertext made for other associated data is refused holds up to forgery of the tag and
/// is not claimed.
#[verifier::external_body]
pub(crate) fn aes_open(key: &[u8], nonce: &[u8], ciphertext: &[u8], associated: &[u8]) -> (r:
    Option<Vec<u8>>)
    requires
        key@.len() == 32,
        nonce@.len() == 12,
    ensures
        r is Some == opened_bytes(key@, nonce@, ciphertext@, associated@) is Some,
        r is Some ==> r->0@ == opened_bytes(key@, nonce@, ciphertext@, associated@)->0,
{
    let cipher = <aes_gcm::Aes256Gcm as aes_gcm::KeyInit>::new_from_slice(key).ok()?;
    let payload = aes_gcm::aead::Payload { msg: ciphertext, aad: associated };
    aes_gcm::aead::Aead::decrypt(&cipher, aes_gcm::Nonce::from_slice(nonce), payload).ok()
}

/// Calls `getrandom::fill` on a buffer of `count` bytes. The claim: on success the buffer still
/// has `count` bytes. Nothing is claimed of their values, nor of when the source fails.
#[verifier::external_body]
pub(crate) fn random_bytes(count: usize) -> (r: Result<Vec<u8>, String>)
    requires
        count <= 4096,
    ensures
        r is Ok ==> r->Ok_0@.len() == count,
{
    let mut buffer = vec![0; count];
    match getrandom::fill(&mut buffer) {
        Ok(()) => Ok(buffer),
        Err(error) => Err(error.to_string()),
    }
}

/// Calls `zeroize::Zeroize::zeroize` on a vector, which overwrites the bytes and clears the
/// vector. The claim: the vector is empty afterwards.
#[verifier::external_body]
pub(crate) fn erase(bytes: &mut Vec<u8>)
    ensures
        final(bytes)@ == Seq::<u8>::empty(),
{
    zeroize::Zeroize::zeroize(bytes)
}

} // verus!
