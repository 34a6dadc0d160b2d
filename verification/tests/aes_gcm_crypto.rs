use crypto_core::adapters::aes_gcm_crypto::AESGCMCrypto;

#[test]
fn encrypt_and_decrypt_round_trip() {
    let key = [7u8; 32];
    let plaintext = b"security log payload";

    let encrypted = AESGCMCrypto::encrypt(plaintext, &key).expect("encryption should work");
    let decrypted = AESGCMCrypto::decrypt_ref(&encrypted, &key).expect("decryption should work");

    assert_eq!(decrypted, plaintext);
}

#[test]
fn tampered_tag_fails_validation() {
    let key = [9u8; 32];
    let plaintext = b"tamper check";

    let mut encrypted = AESGCMCrypto::encrypt(plaintext, &key).expect("encryption should work");
    encrypted.tag[0] ^= 0xFF;

    let result = AESGCMCrypto::decrypt_ref(&encrypted, &key);

    assert!(result.is_err());
}

#[test]
fn ciphertext_differs_from_plaintext_and_fresh_nonces_differ() {
    let key = [3u8; 32];
    let plaintext = b"the same payload twice";

    let first = AESGCMCrypto::encrypt(plaintext, &key).expect("encryption should work");
    let second = AESGCMCrypto::encrypt(plaintext, &key).expect("encryption should work");

    assert_eq!(first.ciphertext.len(), plaintext.len());
    assert_ne!(first.ciphertext, plaintext.to_vec());
    assert_ne!(first.iv, second.iv);
    assert_eq!(AESGCMCrypto::decrypt(second, &key).expect("decryption should work"), plaintext.to_vec());
}

#[test]
fn wrong_key_fails_validation() {
    let encrypted = AESGCMCrypto::encrypt(b"keyed", &[1u8; 32]).expect("encryption should work");
    assert!(AESGCMCrypto::decrypt_ref(&encrypted, &[2u8; 32]).is_err());
}

#[test]
fn metadata_travels_with_the_sealed_payload() {
    let encrypted = AESGCMCrypto::encrypt_with_metadata(9, 77, "datakey-x", b"payload", &[4u8; 32])
        .expect("encryption should work");
    assert_eq!(encrypted.encrypted_log_id, 9);
    assert_eq!(encrypted.user_id, 77);
    assert_eq!(encrypted.key_id, "datakey-x");
}
