use eye_core::config::{validate_config, AgentConfig};

#[test]
fn test_default_config() {
    let config = AgentConfig::default();
    assert_eq!(config.interval_ms, 1500);
    assert_eq!(config.format, "png");
    assert_eq!(config.quality, 95);
}

#[test]
fn test_validate_keeps_valid_config() {
    let v = validate_config(AgentConfig {
        interval_ms: 2_000,
        format: "jpeg".to_string(),
        quality: 80,
    });
    assert_eq!(v.interval_ms, 2_000);
    assert_eq!(v.format, "jpeg");
    assert_eq!(v.quality, 80);
}

#[test]
fn test_validate_clamps_interval() {
    let v = validate_config(AgentConfig {
        interval_ms: 50,
        format: "png".to_string(),
        quality: 95,
    });
    assert_eq!(v.interval_ms, 100);
}

#[test]
fn test_validate_clamps_quality() {
    let low = validate_config(AgentConfig {
        interval_ms: 1_500,
        format: "png".to_string(),
        quality: 0,
    });
    assert_eq!(low.quality, 75);
    let high = validate_config(AgentConfig {
        interval_ms: 1_500,
        format: "png".to_string(),
        quality: 101,
    });
    assert_eq!(high.quality, 75);
}

#[test]
fn test_validate_canonicalizes_format() {
    let jpg = validate_config(AgentConfig {
        interval_ms: 1_500,
        format: "JPG".to_string(),
        quality: 95,
    });
    assert_eq!(jpg.format, "jpeg");
    let webp = validate_config(AgentConfig {
        interval_ms: 1_500,
        format: "WebP".to_string(),
        quality: 95,
    });
    assert_eq!(webp.format, "webp");
    let unknown = validate_config(AgentConfig {
        interval_ms: 1_500,
        format: "gif".to_string(),
        quality: 95,
    });
    assert_eq!(unknown.format, "png");
}
