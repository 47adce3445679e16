use lyra::request_log::{path_only, request_id};

#[test]
fn path_drops_query_string() {
    assert_eq!(path_only("/oauth/token", Some("code=secret")), "/oauth/token");
    assert_eq!(path_only("/tickets/1", None), "/tickets/1");
}

#[test]
fn request_ids_are_hex() {
    let a = request_id();
    let b = request_id();
    assert_eq!(a.len(), 32);
    assert!(a.chars().all(|c| c.is_ascii_hexdigit() && !c.is_ascii_uppercase()));
    assert_ne!(a, b);
}
