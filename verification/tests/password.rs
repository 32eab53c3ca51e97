use multitenant_worker::auth::password::{
    hash_new_password, hash_with_salt, verify_password, PasswordError,
};

#[test]
fn hash_then_verify_roundtrips() {
    let hash = hash_new_password("correct horse battery").unwrap();
    verify_password(&hash, "correct horse battery").unwrap();
    assert!(verify_password(&hash, "wrong-password").is_err());
}

#[test]
fn rejects_short_password() {
    let err = hash_new_password("short").unwrap_err();
    assert!(matches!(err, PasswordError::TooShort(5)));
}

#[test]
fn short_password_message_names_both_lengths() {
    let err = hash_new_password("short").unwrap_err();
    assert_eq!(err.to_string(), "password too short (5 chars, need 8)");
}

#[test]
fn exactly_eight_characters_is_enough() {
    let hash = hash_new_password("12345678").unwrap();
    verify_password(&hash, "12345678").unwrap();
}

#[test]
fn wrong_password_is_a_mismatch() {
    let hash = hash_new_password("correct horse battery").unwrap();
    let err = verify_password(&hash, "correct horse batterz").unwrap_err();
    assert!(matches!(err, PasswordError::Mismatch));
    assert_eq!(err.to_string(), "password mismatch");
}

#[test]
fn garbage_stored_hash_is_invalid() {
    let err = verify_password("not-a-phc-string", "whatever-password").unwrap_err();
    assert!(matches!(err, PasswordError::InvalidHash(_)));
}

#[test]
fn the_same_salt_gives_the_same_hash() {
    let a = hash_with_salt("correct horse battery", "c2FsdHNhbHRzYWx0").unwrap();
    let b = hash_with_salt("correct horse battery", "c2FsdHNhbHRzYWx0").unwrap();
    assert_eq!(a, b);
    assert!(a.starts_with("$argon2id$"));
    verify_password(&a, "correct horse battery").unwrap();
}

#[test]
fn fresh_salts_differ() {
    let a = hash_new_password("correct horse battery").unwrap();
    let b = hash_new_password("correct horse battery").unwrap();
    assert_ne!(a, b);
}
