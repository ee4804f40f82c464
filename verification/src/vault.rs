//! The token vault: account-bound sealing of serialized token sets.
//!
//! An envelope is the padded base64 text of a 12-byte nonce followed by the
//! AES-256-GCM ciphertext of the plaintext, sealed with the account's
//! associated data.
use vstd::prelude::*;
use crate::crypto::{
    aead_lengths_ok, aes256gcm_decrypt, aes256gcm_encrypt, aes256gcm_open, aes256gcm_seal,
    random_nonce,
};
use crate::encoding::{base64_decode, base64_encode, base64_text};

verus! {

#[derive(Debug, Clone, Copy, PartialEq, Eq, Structural)]
pub enum VaultError {
    InvalidKey,
    MalformedEnvelope,
    Encryption,
    Decryption,
}

/// Seals and opens token envelopes under one 32-byte key.
pub struct TokenVault {
    key: Vec<u8>,
}

/// `envelope` is the base64 text of some 12-byte nonce followed by the
/// sealing of `plaintext` under `key`, that nonce and `aad` (which carries a
/// 16-byte tag).
pub open spec fn sealed_envelope(key: Seq<u8>, aad: Seq<u8>, plaintext: Seq<u8>, envelope: Seq<char>) -> bool {
    exists|nonce: Seq<u8>|
        {
            &&& nonce.len() == 12
            &&& aes256gcm_seal(key, nonce, plaintext, aad).len() == plaintext.len() + 16
            &&& envelope == #[trigger] base64_text(
                nonce + aes256gcm_seal(key, nonce, plaintext, aad),
            )
        }
}

/// What opening the decoded bytes of an envelope gives.
pub open spec fn envelope_opening(key: Seq<u8>, aad: Seq<u8>, bytes: Seq<u8>) -> Result<Seq<u8>, VaultError> {
    if bytes.len() <= 12 {
        Err(VaultError::MalformedEnvelope)
    } else {
        match aes256gcm_open(key, bytes.take(12), bytes.skip(12), aad) {
            Some(p) => Ok(p),
            None => Err(VaultError::Decryption),
        }
    }
}

/// What opening `envelope` for `aad` under `key` gives: text that is the
/// base64 form of some bytes gives what opening those bytes gives; other text
/// is a malformed envelope; and an envelope that seals a plaintext within the
/// cipher's limits opens to that plaintext.
pub open spec fn decrypt_outcome(
    key: Seq<u8>,
    aad: Seq<u8>,
    envelope: Seq<char>,
    out: Result<Seq<u8>, VaultError>,
) -> bool {
    &&& forall|b: Seq<u8>|
        envelope == #[trigger] base64_text(b) ==> out == envelope_opening(key, aad, b)
    &&& !(exists|b: Seq<u8>| envelope == #[trigger] base64_text(b)) ==> out == Err::<
        Seq<u8>,
        VaultError,
    >(VaultError::MalformedEnvelope)
    &&& forall|m: Seq<u8>|
        #[trigger] sealed_envelope(key, aad, m, envelope) && aead_lengths_ok(m.len(), aad.len())
            ==> out == Ok::<Seq<u8>, VaultError>(m)
}

/// Round trip: opening, under the same key and associated data, an envelope
/// that seals a plaintext within the cipher's limits gives that plaintext
/// back.  (`encrypt` and `encrypt_with_nonce` give such envelopes, and
/// `decrypt` gives such outcomes.)
pub proof fn lemma_vault_round_trip(
    key: Seq<u8>,
    aad: Seq<u8>,
    plaintext: Seq<u8>,
    envelope: Seq<char>,
    out: Result<Seq<u8>, VaultError>,
)
    requires
        sealed_envelope(key, aad, plaintext, envelope),
        aead_lengths_ok(plaintext.len(), aad.len()),
        decrypt_outcome(key, aad, envelope, out),
    ensures
        out == Ok::<Seq<u8>, VaultError>(plaintext),
{
}

/// The content of a byte result.
pub open spec fn bytes_result(r: Result<Vec<u8>, VaultError>) -> Result<Seq<u8>, VaultError> {
    match r {
        Ok(v) => Ok(v@),
        Err(e) => Err(e),
    }
}

impl TokenVault {
    #[verifier::type_invariant]
    spec fn key_is_256_bits(self) -> bool {
        self.key@.len() == 32
    }

    /// The key bytes.
    pub closed spec fn key_bytes(self) -> Seq<u8> {
        self.key@
    }

    /// Reads a key given as padded base64 of exactly 32 bytes.
    pub fn from_base64_key(encoded: &str) -> (r: Result<TokenVault, VaultError>)
        ensures
            r is Ok <==> exists|b: Seq<u8>| b.len() == 32 && encoded@ == #[trigger] base64_text(b),
            r matches Ok(v) ==> encoded@ == base64_text(v.key_bytes()),
            r matches Err(e) ==> e == VaultError::InvalidKey,
    {
        let decoded = match base64_decode(encoded) {
            Some(d) => d,
            None => return Err(VaultError::InvalidKey),
        };
        if decoded.len() != 32 {
            proof {
                assert forall|b: Seq<u8>| b.len() == 32 implies encoded@ != #[trigger] base64_text(
                    b,
                ) by {
                    if encoded@ == base64_text(b) {
                        assert(decoded@ == b);
                    }
                }
            }
            return Err(VaultError::InvalidKey);
        }
        Ok(TokenVault { key: decoded })
    }

    /// Seals `plaintext` for `aad` under the given 12-byte nonce.
    pub fn encrypt_with_nonce(&self, aad: &[u8], plaintext: &[u8], nonce: &[u8]) -> (r: Result<String, VaultError>)
        requires
            nonce@.len() == 12,
        ensures
            r is Ok <==> aead_lengths_ok(plaintext@.len(), aad@.len()),
            r matches Ok(env) ==> env@ == base64_text(
                nonce@ + aes256gcm_seal(self.key_bytes(), nonce@, plaintext@, aad@),
            ),
            r matches Ok(env) ==> sealed_envelope(self.key_bytes(), aad@, plaintext@, env@),
            r matches Err(e) ==> e == VaultError::Encryption,
    {
        proof {
            use_type_invariant(self);
        }
        let ciphertext = match aes256gcm_encrypt(self.key.as_slice(), nonce, plaintext, aad) {
            Some(c) => c,
            None => return Err(VaultError::Encryption),
        };
        let mut envelope: Vec<u8> = Vec::new();
        envelope.extend_from_slice(nonce);
        envelope.extend_from_slice(ciphertext.as_slice());
        let text = base64_encode(envelope.as_slice());
        proof {
            assert(envelope@ =~= nonce@ + ciphertext@);
            assert(text@ == base64_text(
                nonce@ + aes256gcm_seal(self.key_bytes(), nonce@, plaintext@, aad@),
            ));
        }
        Ok(text)
    }

    /// Seals `plaintext` for `aad` under a fresh random nonce.
    pub fn encrypt(&self, aad: &[u8], plaintext: &[u8]) -> (r: Result<String, VaultError>)
        ensures
            r is Ok <==> aead_lengths_ok(plaintext@.len(), aad@.len()),
            r matches Ok(env) ==> sealed_envelope(self.key_bytes(), aad@, plaintext@, env@),
            r matches Err(e) ==> e == VaultError::Encryption,
    {
        let nonce = random_nonce();
        self.encrypt_with_nonce(aad, plaintext, nonce.as_slice())
    }

    /// Opens an envelope sealed for `aad`.
    pub fn decrypt(&self, aad: &[u8], envelope: &str) -> (r: Result<Vec<u8>, VaultError>)
        ensures
            decrypt_outcome(self.key_bytes(), aad@, envelope@, bytes_result(r)),
    {
        proof {
            use_type_invariant(self);
        }
        let bytes = match base64_decode(envelope) {
            Some(b) => b,
            None => return Err(VaultError::MalformedEnvelope),
        };
        if bytes.len() <= 12 {
            proof {
                assert forall|m: Seq<u8>|
                    #[trigger] sealed_envelope(self.key_bytes(), aad@, m, envelope@)
                        implies !aead_lengths_ok(m.len(), aad@.len()) by {
                    let n = choose|n: Seq<u8>|
                        {
                            &&& n.len() == 12
                            &&& aes256gcm_seal(self.key_bytes(), n, m, aad@).len() == m.len() + 16
                            &&& envelope@ == #[trigger] base64_text(
                                n + aes256gcm_seal(self.key_bytes(), n, m, aad@),
                            )
                        };
                    assert(bytes@ == n + aes256gcm_seal(self.key_bytes(), n, m, aad@));
                }
            }
            return Err(VaultError::MalformedEnvelope);
        }
        let (nonce, ciphertext) = bytes.as_slice().split_at(12);
        let opened = aes256gcm_decrypt(self.key.as_slice(), nonce, ciphertext, aad);
        proof {
            assert(nonce@ == bytes@.take(12));
            assert(ciphertext@ == bytes@.skip(12));
            assert forall|m: Seq<u8>|
                #[trigger] sealed_envelope(self.key_bytes(), aad@, m, envelope@) && aead_lengths_ok(
                    m.len(),
                    aad@.len(),
                ) implies opened is Some && opened->0@ == m by {
                let n = choose|n: Seq<u8>|
                    {
                        &&& n.len() == 12
                        &&& aes256gcm_seal(self.key_bytes(), n, m, aad@).len() == m.len() + 16
                        &&& envelope@ == #[trigger] base64_text(
                            n + aes256gcm_seal(self.key_bytes(), n, m, aad@),
                        )
                    };
                let c = aes256gcm_seal(self.key_bytes(), n, m, aad@);
                assert(bytes@ == n + c);
                assert(nonce@ =~= n);
                assert(ciphertext@ =~= c);
            }
        }
        match opened {
            Some(p) => Ok(p),
            None => Err(VaultError::Decryption),
        }
    }
}

} // verus!
