use maileroo::crypto::{decrypt, decrypt_with_key, encrypt, encrypt_with_key, CryptoError};

#[test]
fn test_encryption_roundtrip_with_key() {
    let plaintext = "super-secret-dkim-key-12345";
    let key = "my-secure-database-encryption-key";

    let encrypted = encrypt_with_key(plaintext, key).expect("encryption should succeed");
    assert!(encrypted.starts_with("$v1$"));

    let decrypted = decrypt_with_key(&encrypted, key).expect("decryption should succeed");
    assert_eq!(plaintext, decrypted);
}

#[test]
fn test_plaintext_fallback() {
    let plaintext = "ordinary-unencrypted-string";
    let key = "some-key";

    let decrypted = decrypt_with_key(plaintext, key).expect("decryption should succeed");
    assert_eq!(plaintext, decrypted);
}

#[test]
fn test_decryption_failure_with_wrong_key() {
    let plaintext = "secret-data";
    let key_1 = "correct-key";
    let key_2 = "incorrect-key";

    let encrypted = encrypt_with_key(plaintext, key_1).expect("encryption should succeed");
    let result = decrypt_with_key(&encrypted, key_2);
    assert!(result.is_err());
}

#[test]
fn wrong_key_is_a_decryption_error() {
    let encrypted = encrypt_with_key("secret-data", "correct-key").unwrap();
    assert_eq!(decrypt_with_key(&encrypted, "incorrect-key"), Err(CryptoError::Decryption));
}

#[test]
fn two_encryptions_use_fresh_nonces() {
    let a = encrypt_with_key("same", "k").unwrap();
    let b = encrypt_with_key("same", "k").unwrap();
    assert_ne!(a, b);
    assert_eq!(decrypt_with_key(&a, "k").unwrap(), "same");
    assert_eq!(decrypt_with_key(&b, "k").unwrap(), "same");
}

#[test]
fn encrypted_value_is_base64_of_nonce_and_ciphertext() {
    // 24-byte nonce + plaintext + 16-byte tag, base64 of 45 bytes = 60 chars
    let encrypted = encrypt_with_key("hello", "k").unwrap();
    assert_eq!(encrypted.len(), 4 + 60);
}

#[test]
fn bad_base64_is_reported() {
    assert_eq!(decrypt_with_key("$v1$!!!not base64!!!", "k"), Err(CryptoError::Base64));
}

#[test]
fn short_payload_is_reported() {
    // "AAAA" decodes to three bytes, fewer than a nonce
    assert_eq!(decrypt_with_key("$v1$AAAA", "k"), Err(CryptoError::TooShort));
}

#[test]
fn tampered_ciphertext_is_rejected() {
    let encrypted = encrypt_with_key("payload", "k").unwrap();
    let mut chars: Vec<char> = encrypted.chars().collect();
    let last = chars.len() - 3;
    chars[last] = if chars[last] == 'A' { 'B' } else { 'A' };
    let tampered: String = chars.into_iter().collect();
    assert!(decrypt_with_key(&tampered, "k").is_err());
}

#[test]
fn blank_master_key_keeps_plaintext() {
    assert_eq!(encrypt("visible", "   ").unwrap(), "visible");
    assert_eq!(decrypt("visible", "").unwrap(), "visible");
    assert_eq!(decrypt("$v1$abcd", " "), Err(CryptoError::MissingKey));
}

#[test]
fn configured_master_key_encrypts() {
    let c = encrypt("visible", "master").unwrap();
    assert!(c.starts_with("$v1$"));
    assert_eq!(decrypt(&c, "master").unwrap(), "visible");
}
