use base64::{engine::general_purpose::STANDARD, engine::general_purpose::STANDARD_NO_PAD, Engine as _};
use evgl_libs::vault::{TokenVault, VaultError};

fn token_plaintext(access_token: &str) -> Vec<u8> {
    let mut stored = serde_json::Map::new();
    stored.insert("access_token".into(), serde_json::Value::String(access_token.into()));
    stored.insert("refresh_token".into(), serde_json::Value::Null);
    stored.insert("expires_at".into(), serde_json::Value::Null);
    stored.insert(
        "scopes".into(),
        serde_json::Value::Array(vec![serde_json::Value::String("events".into())]),
    );
    stored.insert("provider_data".into(), serde_json::Value::Null);
    serde_json::to_vec(&serde_json::Value::Object(stored)).unwrap()
}

#[test]
fn round_trip_binds_ciphertext_to_account_aad() {
    let key = STANDARD.encode([7_u8; 32]);
    let vault = TokenVault::from_base64_key(&key).unwrap();
    let plaintext = token_plaintext("top-secret");
    let encrypted = vault.encrypt(b"user:eventbrite:org-1", &plaintext).unwrap();
    let decrypted = vault.decrypt(b"user:eventbrite:org-1", &encrypted).unwrap();
    let value: serde_json::Value = serde_json::from_slice(&decrypted).unwrap();
    assert_eq!(value["access_token"], "top-secret");
    assert!(vault.decrypt(b"user:eventbrite:org-2", &encrypted).is_err());
    assert!(!encrypted.contains("top-secret"));
}

#[test]
fn malformed_and_short_envelopes_are_rejected() {
    let key = STANDARD.encode([9_u8; 32]);
    let vault = TokenVault::from_base64_key(&key).unwrap();
    assert!(vault.decrypt(b"aad", "not base64!").is_err());
    assert!(vault.decrypt(b"aad", &STANDARD.encode([1_u8; 12])).is_err());
}

#[test]
fn keys_must_be_base64_of_exactly_32_bytes() {
    assert_eq!(TokenVault::from_base64_key("not base64!").err(), Some(VaultError::InvalidKey));
    assert_eq!(
        TokenVault::from_base64_key(&STANDARD.encode([1_u8; 31])).err(),
        Some(VaultError::InvalidKey)
    );
    assert_eq!(
        TokenVault::from_base64_key(&STANDARD.encode([1_u8; 33])).err(),
        Some(VaultError::InvalidKey)
    );
}

#[test]
fn envelopes_are_the_nonce_followed_by_the_sealed_plaintext() {
    let vault = TokenVault::from_base64_key(&STANDARD.encode([3_u8; 32])).unwrap();
    let nonce = [5_u8; 12];
    let envelope = vault.encrypt_with_nonce(b"aad", b"hello", &nonce).unwrap();
    let bytes = STANDARD.decode(&envelope).unwrap();
    assert_eq!(&bytes[..12], &nonce);
    assert_eq!(bytes.len(), 12 + 5 + 16);
    assert_eq!(vault.decrypt(b"aad", &envelope).unwrap(), b"hello".to_vec());
    // same nonce, same plaintext: same envelope
    assert_eq!(vault.encrypt_with_nonce(b"aad", b"hello", &nonce).unwrap(), envelope);
}

#[test]
fn tampered_envelopes_fail_to_open() {
    let vault = TokenVault::from_base64_key(&STANDARD.encode([4_u8; 32])).unwrap();
    let envelope = vault.encrypt(b"aad", b"secret").unwrap();
    let mut bytes = STANDARD.decode(&envelope).unwrap();
    let last = bytes.len() - 1;
    bytes[last] ^= 1;
    assert_eq!(
        vault.decrypt(b"aad", &STANDARD.encode(&bytes)),
        Err(VaultError::Decryption)
    );
    assert_eq!(vault.decrypt(b"aad", "QUJD"), Err(VaultError::MalformedEnvelope));
    assert_eq!(vault.decrypt(b"aad", "QQ"), Err(VaultError::MalformedEnvelope));
}

#[test]
fn keys_must_use_canonical_padding() {
    let unpadded = STANDARD_NO_PAD.encode([2_u8; 32]);
    assert_eq!(TokenVault::from_base64_key(&unpadded).err(), Some(VaultError::InvalidKey));
    assert!(TokenVault::from_base64_key(&STANDARD.encode([2_u8; 32])).is_ok());
}
