use eye_core::auth::{encode, generate_token, validate_token, StateRegistry, TokenAuth};

#[test]
fn test_token_auth() {
    let auth = TokenAuth::new("test-token".to_string());
    assert_eq!(auth.token(), "test-token");
}

#[test]
fn test_token_generation() {
    let token = generate_token();
    assert!(!token.is_empty());
    assert!(validate_token(&token));
}

#[test]
fn test_token_length() {
    // 32 random bytes, base64 with padding: always 44 characters.
    assert_eq!(generate_token().len(), 44);
}

#[test]
fn test_validate_token_rejects_empty() {
    assert!(!validate_token(""));
    assert!(validate_token("x"));
}

#[test]
fn test_encode_standard_base64() {
    assert_eq!(encode(b"hello"), "aGVsbG8=");
    assert_eq!(encode(b""), "");
    assert_eq!(encode(&[0, 0, 0]), "AAAA");
}

#[test]
fn test_authorize_health_is_open() {
    let auth = TokenAuth::new("secret".to_string());
    assert!(auth.authorize("/health", None));
    assert!(auth.authorize("/health", Some("Bearer wrong")));
}

#[test]
fn test_authorize_bearer() {
    let auth = TokenAuth::new("secret".to_string());
    assert!(auth.authorize("/upload", Some("Bearer secret")));
    assert!(!auth.authorize("/upload", Some("Bearer wrong")));
    assert!(!auth.authorize("/upload", Some("secret")));
    assert!(!auth.authorize("/upload", Some("bearer secret")));
    assert!(!auth.authorize("/upload", None));
    assert!(!auth.authorize("/upload", Some("Bearer")));
}

#[test]
fn test_state_registry_consumes_once() {
    let mut reg = StateRegistry::new();
    reg.register("abc".to_string(), 1_700_000_000);
    reg.register("def".to_string(), 1_700_000_001);
    assert!(reg.consume("abc"));
    assert!(!reg.consume("abc"));
    assert!(!reg.consume("zzz"));
    assert!(reg.consume("def"));
}
