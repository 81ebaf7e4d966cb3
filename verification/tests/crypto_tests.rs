use busylib::crypto::{
    decrypt_by_key, decrypt_by_key_with_default, decrypt_by_key_with_error, encrypt_by_key,
};

#[test]
fn encrypt_test() {
    let msg = "https?";
    let key = "foo";
    let encrypted = encrypt_by_key(msg.to_string(), key);
    let decrypted = decrypt_by_key(encrypted, key);

    assert_eq!(msg, decrypted);
}

#[test]
fn decrypt_test() {
    let msg = "https?";
    let key = "foo";
    let default = "default msg";
    let decrypted = decrypt_by_key_with_default(msg.to_string(), key, default);
    assert_eq!(decrypted, default);

    if decrypt_by_key_with_error(msg.to_string(), key).is_ok() {
        panic!("should be error");
    }
    let encrypted = encrypt_by_key(msg.to_string(), key);
    if let Ok(decrypted) = decrypt_by_key_with_error(encrypted, key) {
        assert_eq!(msg, decrypted);
    } else {
        panic!("decrypt error");
    }
}

#[test]
fn encrypt_matches_known_ciphertext() {
    let encrypted = encrypt_by_key("http://magiclen.org".to_string(), "magickey");
    assert_eq!(encrypted.as_str(), "DS/2U8royDnJDiNY2ps3f6ZoTbpZo8ZtUGYLGEjwLDQ=");
}

#[test]
fn decrypt_error_carries_a_cause() {
    let e = decrypt_by_key_with_error("not base64!".to_string(), "foo").err().unwrap();
    assert!(!e.message().is_empty());
}
