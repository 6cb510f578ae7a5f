use chat_service::cors::{FairingKind, CORS};

#[test]
fn headers_without_setting() {
    let h = CORS::response_headers(None);
    assert_eq!(h.len(), 4);
    assert_eq!(h[0], ("Access-Control-Allow-Origin".to_string(), "".to_string()));
    assert_eq!(h[1], ("Access-Control-Allow-Methods".to_string(), "POST, GET, PUT, DELETE, PATCH, OPTIONS".to_string()));
    assert_eq!(h[2], ("Access-Control-Allow-Headers".to_string(), "Content-Type, Authorization, X-Requested-With, Accept, Origin".to_string()));
    assert_eq!(h[3], ("Access-Control-Allow-Credentials".to_string(), "true".to_string()));
}

#[test]
fn origins_joined_by_commas() {
    let h = CORS::response_headers(Some("http://localhost:3000   https://chat.example\n"));
    assert_eq!(h[0].1, "http://localhost:3000,https://chat.example");
    assert_eq!(CORS::allowed_origins(Some("x")), "x");
    assert_eq!(CORS::allowed_origins(Some("")), "");
}

#[test]
fn fairing_info() {
    let i = CORS.info();
    assert_eq!(i.name, "Add CORS headers to responses");
    assert!(matches!(i.kind, FairingKind::Response));
}
