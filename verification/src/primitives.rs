//! Trusted boundary to the outside crates the custody service is built on:
//! hashing, authenticated encryption, text encoding, randomness, identifiers
//! and the clock. Each wrapper makes exactly one outside call; its contract
//! states only what the crate's source or documentation shows.

use vstd::prelude::*;
use sha2::Digest;
use aes_gcm::KeyInit;
use aes_gcm::aead::Aead;
use base64::Engine;
use rand::Rng;

verus! {

/// The SHA-256 digest of a byte sequence: a function of the input alone.
pub uninterp spec fn sha256_of(data: Seq<u8>) -> Seq<u8>;

/// The AES-256-GCM ciphertext (with its postfix tag) for a key, nonce and
/// plaintext: a function of the three alone.
pub uninterp spec fn aes_seal_of(key: Seq<u8>, nonce: Seq<u8>, plaintext: Seq<u8>) -> Seq<u8>;

/// What AES-256-GCM decryption yields for a key, nonce and ciphertext:
/// the plaintext, or nothing when authentication fails.
pub uninterp spec fn aes_open_of(key: Seq<u8>, nonce: Seq<u8>, ciphertext: Seq<u8>) -> Option<
    Seq<u8>,
>;

/// The standard base64 text of a byte sequence.
pub uninterp spec fn base64_of(data: Seq<u8>) -> Seq<char>;

/// What standard base64 decoding yields for a text: the bytes, or nothing
/// when the text is malformed.
pub uninterp spec fn base64_decode_of(text: Seq<char>) -> Option<Seq<u8>>;

/// Relies on sha2's `Sha256`: a 32-byte digest that depends on the input
/// bytes alone.
#[verifier::external_body]
pub(crate) fn sha256(data: &[u8]) -> (r: Vec<u8>)
    ensures
        r@ == sha256_of(data@),
        r@.len() == 32,
{
    let mut hasher = sha2::Sha256::new();
    hasher.update(data);
    hasher.finalize().to_vec()
}

/// Relies on aes_gcm's `Aes256Gcm` encryption: AES-256-GCM appends a 16-byte
/// authentication tag, the ciphertext depends on key, nonce and plaintext
/// alone, and decrypting it under the same key and nonce yields the
/// plaintext again. Encryption refuses only a plaintext longer than 2^36
/// bytes.
#[verifier::external_body]
pub(crate) fn aes256_gcm_seal(key: &[u8], nonce: &[u8], plaintext: &[u8]) -> (r: Option<Vec<u8>>)
    requires
        key@.len() == 32,
        nonce@.len() == 12,
    ensures
        plaintext@.len() <= 0x10_0000_0000 ==> r is Some,
        r matches Some(ct) ==> {
            &&& ct@ == aes_seal_of(key@, nonce@, plaintext@)
            &&& ct@.len() == plaintext@.len() + 16
            &&& aes_open_of(key@, nonce@, ct@) == Some(plaintext@)
        },
{
    let cipher = aes_gcm::Aes256Gcm::new(aes_gcm::Key::<aes_gcm::Aes256Gcm>::from_slice(key));
    match cipher.encrypt(aes_gcm::Nonce::from_slice(nonce), plaintext) {
        Ok(ct) => Some(ct),
        Err(_) => None,
    }
}

/// Relies on aes_gcm's `Aes256Gcm` decryption: returns the plaintext when the
/// ciphertext authenticates under the key and nonce, and fails otherwise.
#[verifier::external_body]
pub(crate) fn aes256_gcm_open(key: &[u8], nonce: &[u8], ciphertext: &[u8]) -> (r: Option<Vec<u8>>)
    requires
        key@.len() == 32,
        nonce@.len() == 12,
    ensures
        r matches Some(pt) ==> aes_open_of(key@, nonce@, ciphertext@) == Some(pt@),
        r is None ==> aes_open_of(key@, nonce@, ciphertext@) is None,
{
    let cipher = aes_gcm::Aes256Gcm::new(aes_gcm::Key::<aes_gcm::Aes256Gcm>::from_slice(key));
    match cipher.decrypt(aes_gcm::Nonce::from_slice(nonce), ciphertext) {
        Ok(pt) => Some(pt),
        Err(_) => None,
    }
}

/// Relies on base64's standard engine encoding: the text depends on the input
/// bytes alone and decodes back to exactly those bytes.
#[verifier::external_body]
pub(crate) fn base64_encode(data: &[u8]) -> (r: String)
    ensures
        r@ == base64_of(data@),
        base64_decode_of(r@) == Some(data@),
{
    base64::engine::general_purpose::STANDARD.encode(data)
}

/// Relies on base64's standard engine decoding: the bytes depend on the text
/// alone; malformed text is rejected.
#[verifier::external_body]
pub(crate) fn base64_decode(text: &str) -> (r: Option<Vec<u8>>)
    ensures
        r matches Some(v) ==> base64_decode_of(text@) == Some(v@),
        r is None ==> base64_decode_of(text@) is None,
{
    match base64::engine::general_purpose::STANDARD.decode(text) {
        Ok(v) => Some(v),
        Err(_) => None,
    }
}

/// Relies on rand's `thread_rng`: fills a buffer of the requested length with
/// random bytes; nothing is promised of the values.
#[verifier::external_body]
pub(crate) fn random_bytes(len: usize) -> (r: Vec<u8>)
    ensures
        r@.len() == len,
{
    let mut buf = vec![0u8; len];
    rand::thread_rng().fill(&mut buf[..]);
    buf
}

/// Relies on uuid's `new_v4` and its hyphenated text form: a fresh random
/// identifier of 36 characters; nothing else is promised of it.
#[verifier::external_body]
pub(crate) fn fresh_uuid() -> (r: String)
    ensures
        r@.len() == 36,
{
    uuid::Uuid::new_v4().to_string()
}

/// Relies on chrono's `Utc::now`: the current Unix time in whole seconds;
/// nothing is promised of the value.
#[verifier::external_body]
pub(crate) fn now_seconds() -> i64 {
    chrono::Utc::now().timestamp()
}

/// Relies on std's `String::push`, which vstd leaves unspecified: appends one
/// character.
#[verifier::external_body]
pub(crate) fn push_char(s: &mut String, c: char)
    ensures
        final(s)@ == old(s)@.push(c),
{
    s.push(c);
}

} // verus!
