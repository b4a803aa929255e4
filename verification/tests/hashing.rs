use circle_core::crypto::{hash_password, verify_password};

#[test]
fn test_hash_verify_roundtrip() {
    let hash = hash_password("correct horse battery staple").expect("hashing should succeed");
    assert!(verify_password("correct horse battery staple", &hash));
    assert!(!verify_password("correct horse battery stapl", &hash));
    assert!(!verify_password("", &hash));
}

#[test]
fn test_distinct_salts_both_verify() {
    let h1 = hash_password("password123").expect("hashing should succeed");
    let h2 = hash_password("password123").expect("hashing should succeed");
    // fresh salts give distinct hash strings
    assert_ne!(h1, h2);
    // yet both verify against the same password
    assert!(verify_password("password123", &h1));
    assert!(verify_password("password123", &h2));
}

#[test]
fn test_verify_fails_closed_on_garbage_hash() {
    assert!(!verify_password("password123", ""));
    assert!(!verify_password("password123", "not-a-phc-string"));
    assert!(!verify_password("password123", "$argon2id$v=19$broken"));
}
