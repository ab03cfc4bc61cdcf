use tunnelto_auth::digest::key_id;
use tunnelto_auth::hello::ClientId;

#[test]
fn key_id_of_empty_secret() {
    assert_eq!(key_id(""), "47DEQpj8HBSa-_TImW-5JCeuQeRkm5NMpJWZG3hSuFU");
}

#[test]
fn key_id_is_url_safe_sha256() {
    assert_eq!(key_id("abc"), "ungWv48Bz-pBQUDeXa4iI7ADYaOWF3qctBD_YfIAFa0");
}

#[test]
fn key_id_is_stable_and_distinguishes_secrets() {
    assert_eq!(key_id("good"), key_id("good"));
    assert_ne!(key_id("good"), key_id("bad"));
    assert_eq!(key_id("good").len(), 43);
}

#[test]
fn client_id_for_secret_is_standard_base64() {
    let id = ClientId::for_secret("abc");
    assert_eq!(id.0, "ungWv48Bz+pBQUDeXa4iI7ADYaOWF3qctBD/YfIAFa0=");
    assert!(ClientId::for_secret("abc") == id);
    assert!(!(ClientId::for_secret("abd") == id));
}

#[test]
fn client_id_from_entropy_encodes_the_bytes() {
    assert_eq!(ClientId::from_entropy(&[0u8; 32]).0, "AAAAAAAAAAAAAAAAAAAAAAAAAAAAAAAAAAAAAAAAAAA=");
    let mut bytes = [0u8; 32];
    for (i, b) in bytes.iter_mut().enumerate() {
        *b = i as u8;
    }
    assert_eq!(ClientId::from_entropy(&bytes).0, "AAECAwQFBgcICQoLDA0ODxAREhMUFRYXGBkaGxwdHh8=");
}
