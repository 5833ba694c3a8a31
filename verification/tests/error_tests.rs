use pulse::error::{AppError, WireDecodeError};

fn roundtrip(err: &AppError) -> AppError {
    let wire = err.serialize();
    pulse::error::AppError::deserialize(
        Some(wire.kind.as_str()),
        wire.status.map(u64::from),
        wire.message.as_deref(),
    )
    .ok()
    .unwrap()
}

#[test]
fn error_serde_roundtrip_network() {
    let err = AppError::Network("timeout".to_string());
    let de = roundtrip(&err);
    assert!(matches!(de, AppError::Network(s) if s == "timeout"));
}

#[test]
fn error_serde_roundtrip_api() {
    let err = AppError::Api { status: 429, message: "rate limited".to_string() };
    let de = roundtrip(&err);
    assert!(matches!(de, AppError::Api { status: 429, message: ref m } if m == "rate limited"));
}

#[test]
fn error_serde_roundtrip_unauthorized() {
    let de = roundtrip(&AppError::Unauthorized);
    assert!(matches!(de, AppError::Unauthorized));
}

#[test]
fn error_serde_roundtrip_rate_limited() {
    let de = roundtrip(&AppError::RateLimited);
    assert!(matches!(de, AppError::RateLimited));
}

#[test]
fn error_serde_roundtrip_provider_not_found() {
    let de = roundtrip(&AppError::ProviderNotFound("deepseek".to_string()));
    assert!(matches!(de, AppError::ProviderNotFound(s) if s == "deepseek"));
}

#[test]
fn error_serde_roundtrip_duplicate_provider() {
    let de = roundtrip(&AppError::DuplicateProvider("openai".to_string()));
    assert!(matches!(de, AppError::DuplicateProvider(s) if s == "openai"));
}

#[test]
fn error_serde_roundtrip_keychain() {
    let de = roundtrip(&AppError::Keychain("not found".to_string()));
    assert!(matches!(de, AppError::Keychain(s) if s == "not found"));
}

#[test]
fn error_serde_roundtrip_config() {
    let de = roundtrip(&AppError::Config("invalid json".to_string()));
    assert!(matches!(de, AppError::Config(s) if s == "invalid json"));
}

#[test]
fn error_serde_roundtrip_unknown() {
    let de = roundtrip(&AppError::Unknown("panic".to_string()));
    assert!(matches!(de, AppError::Unknown(s) if s == "panic"));
}

#[test]
fn error_display_network() {
    let err = AppError::Network("timeout".to_string());
    assert_eq!(err.to_string(), "Network error: timeout");
}

#[test]
fn error_display_api() {
    let err = AppError::Api { status: 500, message: "server error".to_string() };
    assert_eq!(err.to_string(), "API error: 500 - server error");
}

#[test]
fn error_deserialize_unknown_variant_fails() {
    let result = AppError::deserialize(Some("NonExistent"), None, None);
    assert!(result.is_err());
}

#[test]
fn error_deserialize_missing_type_fails() {
    let result = AppError::deserialize(None, None, Some("x"));
    assert!(matches!(result, Err(WireDecodeError::MissingType)));
}

#[test]
fn error_deserialize_defaults_message_and_status() {
    let api = AppError::deserialize(Some("Api"), None, None).ok().unwrap();
    assert!(matches!(api, AppError::Api { status: 0, ref message } if message.is_empty()));
    let truncated = AppError::deserialize(Some("Api"), Some(65536 + 404), Some("m")).ok().unwrap();
    assert!(matches!(truncated, AppError::Api { status: 404, .. }));
}

#[test]
fn error_display_every_variant() {
    assert_eq!(AppError::Unauthorized.to_string(), "Authentication failed — check your API key");
    assert_eq!(AppError::RateLimited.to_string(), "Rate limited — please wait before retrying");
    assert_eq!(AppError::ProviderNotFound("x".into()).to_string(), "Provider not found: x");
    assert_eq!(AppError::DuplicateProvider("x".into()).to_string(), "Duplicate provider: x");
    assert_eq!(AppError::Keychain("x".into()).to_string(), "Keychain error: x");
    assert_eq!(AppError::Config("x".into()).to_string(), "Config error: x");
    assert_eq!(AppError::Unknown("x".into()).to_string(), "Unknown error: x");
    assert_eq!(
        AppError::Api { status: 7, message: "m".into() }.to_string(),
        "API error: 7 - m"
    );
}

#[test]
fn error_serialize_fields() {
    let w = AppError::Api { status: 429, message: "slow".into() }.serialize();
    assert_eq!(w.kind, "Api");
    assert_eq!(w.status, Some(429));
    assert_eq!(w.message.as_deref(), Some("slow"));
    let w = AppError::Unauthorized.serialize();
    assert_eq!(w.kind, "Unauthorized");
    assert_eq!(w.status, None);
    assert_eq!(w.message, None);
}
