use circle_core::encryption::EncryptionService;
use uuid::Uuid;

#[test]
fn test_encrypt_decrypt_roundtrip() {
    let service = EncryptionService::new();
    let key = service.generate_key().unwrap();
    let data = b"Hello, secure world!";

    let encrypted = service.encrypt(data, &key).unwrap();
    let decrypted = service.decrypt(&encrypted, &key).unwrap();

    assert_eq!(data, decrypted.as_slice());
}

#[test]
fn test_message_encrypt_decrypt() {
    let service = EncryptionService::new();
    let key = service.generate_key().unwrap();
    let message = "This is a secret message!";

    let encrypted = service.encrypt_message(message, &key).unwrap();
    let decrypted = service.decrypt_message(&encrypted, &key).unwrap();

    assert_eq!(message, decrypted);
}

#[test]
fn test_derive_conversation_key() {
    let service = EncryptionService::new();
    let master_key = service.generate_key().unwrap();
    let conversation_id = Uuid::new_v4();

    let key1 = service.derive_conversation_key(&master_key, conversation_id.as_bytes()).unwrap();
    let key2 = service.derive_conversation_key(&master_key, conversation_id.as_bytes()).unwrap();

    assert_eq!(key1, key2); // Should be deterministic

    let other_conversation_id = Uuid::new_v4();
    let key3 = service
        .derive_conversation_key(&master_key, other_conversation_id.as_bytes())
        .unwrap();

    assert_ne!(key1, key3); // Different conversations should have different keys
}

#[test]
fn test_wrong_key_rejected() {
    let service = EncryptionService::new();
    let key = service.generate_key().unwrap();
    let other = service.generate_key().unwrap();
    let encrypted = service.encrypt(b"payload", &key).unwrap();
    assert!(service.decrypt(&encrypted, &other).is_err());
    assert!(service.decrypt(&encrypted, b"short-key").is_err());
}

#[test]
fn test_tampered_ciphertext_rejected() {
    let service = EncryptionService::new();
    let key = service.generate_key().unwrap();
    let mut encrypted = service.encrypt(b"payload", &key).unwrap();
    encrypted.ciphertext[0] ^= 0x01;
    assert!(service.decrypt(&encrypted, &key).is_err());
}

#[test]
fn test_tampered_message_rejected() {
    let service = EncryptionService::new();
    let key = service.generate_key().unwrap();
    let encrypted = service.encrypt_message("attack at dawn", &key).unwrap();
    assert!(service.decrypt_message("@@not-base64@@", &key).is_err());
    // dropping the last character breaks the canonical base64 frame
    let truncated = &encrypted[..encrypted.len() - 1];
    assert!(service.decrypt_message(truncated, &key).is_err());
}

#[test]
fn test_encrypt_metadata_shape() {
    let service = EncryptionService::new();
    let key = service.generate_key().unwrap();
    let encrypted = service.encrypt(b"payload", &key).unwrap();
    assert_eq!(encrypted.metadata.nonce.len(), 12);
    assert_eq!(encrypted.metadata.salt.len(), 32);
    assert_eq!(encrypted.metadata.key_id.len(), 36);
    assert_eq!(encrypted.ciphertext.len(), b"payload".len() + 16);
}

#[test]
fn test_hash_conversation_key() {
    let service = EncryptionService::new();
    let d1 = service.hash_conversation_key(b"key-one");
    let d2 = service.hash_conversation_key(b"key-one");
    let d3 = service.hash_conversation_key(b"key-two");
    assert_eq!(d1, d2);
    assert_ne!(d1, d3);
    // base64 of a 32-byte digest
    assert_eq!(d1.len(), 44);
}
