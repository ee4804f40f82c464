//! AES-256-GCM sealing, HMAC-SHA256 tags and nonce generation, through the
//! `aes-gcm`, `hmac`, `sha2` and `rand` crates.
use vstd::prelude::*;
use aes_gcm::aead::{Aead, KeyInit, Payload};
use hmac::Mac;
use rand::RngCore;

verus! {

/// Longest plaintext and associated data that AES-GCM accepts (2^36 bytes).
pub open spec fn aead_max_len() -> int {
    0x10_0000_0000
}

/// Both lengths are within what AES-GCM accepts.
pub open spec fn aead_lengths_ok(plaintext_len: nat, aad_len: nat) -> bool {
    plaintext_len <= aead_max_len() && aad_len <= aead_max_len()
}

/// The AES-256-GCM ciphertext (with its 16-byte tag appended) of `plaintext`
/// under `key`, `nonce` and `aad`.
pub uninterp spec fn aes256gcm_seal(key: Seq<u8>, nonce: Seq<u8>, plaintext: Seq<u8>, aad: Seq<u8>) -> Seq<u8>;

/// What AES-256-GCM decryption of `ciphertext` gives: the plaintext, or
/// nothing when the tag does not authenticate.
pub uninterp spec fn aes256gcm_open(key: Seq<u8>, nonce: Seq<u8>, ciphertext: Seq<u8>, aad: Seq<u8>) -> Option<Seq<u8>>;

/// The HMAC-SHA256 tag of `message` under `key`.
pub uninterp spec fn hmac_sha256_tag(key: Seq<u8>, message: Seq<u8>) -> Seq<u8>;

/// `Aes256Gcm::encrypt` with a 32-byte key and 12-byte nonce.  Trusted: it
/// fails only when the plaintext or the associated data is longer than 2^36
/// bytes; otherwise the result is the named ciphertext, 16 bytes longer than
/// the plaintext.
#[verifier::external_body]
pub(crate) fn aes256gcm_encrypt(key: &[u8], nonce: &[u8], plaintext: &[u8], aad: &[u8]) -> (r: Option<Vec<u8>>)
    requires
        key@.len() == 32,
        nonce@.len() == 12,
    ensures
        r is Some <==> aead_lengths_ok(plaintext@.len(), aad@.len()),
        r matches Some(c) ==> c@ == aes256gcm_seal(key@, nonce@, plaintext@, aad@),
        r matches Some(c) ==> c@.len() == plaintext@.len() + 16,
{
    let cipher = aes_gcm::Aes256Gcm::new(aes_gcm::Key::<aes_gcm::Aes256Gcm>::from_slice(key));
    cipher.encrypt(aes_gcm::Nonce::from_slice(nonce), Payload { msg: plaintext, aad }).ok()
}

/// `Aes256Gcm::decrypt` with a 32-byte key and 12-byte nonce.  Trusted: the
/// result is the named opening, and a ciphertext that encryption produced
/// under the same key, nonce and associated data opens to its plaintext.
#[verifier::external_body]
pub(crate) fn aes256gcm_decrypt(key: &[u8], nonce: &[u8], ciphertext: &[u8], aad: &[u8]) -> (r: Option<Vec<u8>>)
    requires
        key@.len() == 32,
        nonce@.len() == 12,
    ensures
        match r {
            Some(p) => aes256gcm_open(key@, nonce@, ciphertext@, aad@) == Some(p@),
            None => aes256gcm_open(key@, nonce@, ciphertext@, aad@) is None,
        },
        forall|m: Seq<u8>|
            #[trigger] aes256gcm_seal(key@, nonce@, m, aad@) == ciphertext@ && aead_lengths_ok(
                m.len(),
                aad@.len(),
            ) ==> r is Some && r->0@ == m,
{
    let cipher = aes_gcm::Aes256Gcm::new(aes_gcm::Key::<aes_gcm::Aes256Gcm>::from_slice(key));
    cipher.decrypt(aes_gcm::Nonce::from_slice(nonce), Payload { msg: ciphertext, aad }).ok()
}

/// `Hmac::<Sha256>::new_from_slice`, `update` and `finalize`.  Trusted: HMAC
/// accepts a key of any length, so a tag always comes back; it is the named
/// tag, 32 bytes long.
#[verifier::external_body]
pub(crate) fn hmac_sha256(key: &[u8], message: &[u8]) -> (r: Option<Vec<u8>>)
    ensures
        r is Some,
        r->0@ == hmac_sha256_tag(key@, message@),
        r->0@.len() == 32,
{
    let mut mac = <hmac::Hmac<sha2::Sha256> as Mac>::new_from_slice(key).ok()?;
    mac.update(message);
    Some(mac.finalize().into_bytes().to_vec())
}

/// Twelve bytes from `rand::rngs::OsRng`.  Nothing is promised of their value.
#[verifier::external_body]
pub(crate) fn random_nonce() -> (r: Vec<u8>)
    ensures
        r@.len() == 12,
{
    let mut nonce = [0u8; 12];
    rand::rngs::OsRng.fill_bytes(&mut nonce);
    nonce.to_vec()
}

} // verus!
