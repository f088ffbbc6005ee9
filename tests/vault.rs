use pgmanager::vault::{decrypt_data, encrypt_data, hash_password, verify_password};

#[test]
fn encryption_round_trips_and_hides_the_text() {
    let e = encrypt_data("correct horse");
    assert_ne!(e, "correct horse");
    assert_eq!(decrypt_data(&e), Ok("correct horse".to_string()));
}

#[test]
fn encryption_is_deterministic() {
    assert_eq!(encrypt_data("abc"), encrypt_data("abc"));
    assert_ne!(encrypt_data("abc"), encrypt_data("abd"));
}

#[test]
fn bad_ciphertext_gives_the_fixed_message() {
    assert_eq!(
        decrypt_data("%%%"),
        Err("Failed to decrypt password".to_string())
    );
}

#[test]
fn password_hash_has_bcrypt_form() {
    let h = hash_password("pw1");
    assert_eq!(h.len(), 60);
    assert!(h.starts_with("$2b$12$"));
    assert_ne!(h, "pw1");
}

#[test]
fn password_matches_its_hash_only() {
    let hash = "$2a$04$UuTkLRZZ6QofpDOlMz32MuuxEHA43WOemOYHPz6.SjsVsyO1tDU96";
    assert!(verify_password("password", hash));
    assert!(!verify_password("Password", hash));
}

#[test]
fn malformed_hash_matches_nothing() {
    assert!(!verify_password("pw1", "not a hash"));
}
