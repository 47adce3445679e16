use lyra::crypto::{hash_password, pkce_s256, random_hex, sha256_hex, verify_password};

#[test]
fn pkce_matches_the_rfc_example() {
    assert_eq!(
        pkce_s256("dBjftJeZ4CVP-mB92K27uhbUJU1p1r_wW1gFWFOEjXk"),
        "E9Melhoa2OwvFrEMTJguCHaoeK1t8URWbuGJSstw-cM"
    );
}

#[test]
fn sha256_hex_of_abc() {
    assert_eq!(
        sha256_hex("abc"),
        "ba7816bf8f01cfea414140de5dae2223b00361a396177a9cb410ff61f20015ad"
    );
}

#[test]
fn password_hash_roundtrip() {
    let h = hash_password("secret-pass").unwrap();
    assert!(h.starts_with("$argon2"));
    assert!(verify_password("secret-pass", &h));
    assert!(!verify_password("nope", &h));
    assert!(!verify_password("secret-pass", "not a hash"));
    assert_ne!(hash_password("secret-pass").unwrap(), h);
}

#[test]
fn random_hex_is_64_digits() {
    let a = random_hex();
    assert_eq!(a.len(), 64);
    assert!(a.chars().all(|c| c.is_ascii_hexdigit() && !c.is_ascii_uppercase()));
    assert_ne!(a, random_hex());
}
