use eye_core::capture::{Config, Engine, FrameFormat};
use eye_core::server::{
    build_upload_frame, classify_status, FieldContent, StatusClass, UploadError, UploadField,
};
use eye_core::text::{i64_to_string, parse_i64};
use eye_core::transport::{is_success_status, WebSocketServer};

fn image_field(bytes: Vec<u8>) -> UploadField {
    UploadField { name: "image".to_string(), content: FieldContent::Bytes(bytes) }
}

fn frame_id_field(text: &str) -> UploadField {
    UploadField { name: "frame_id".to_string(), content: FieldContent::Text(text.to_string()) }
}

#[test]
fn test_build_upload_frame() {
    let fields = vec![image_field(vec![1, 2, 3]), frame_id_field("7")];
    let frame = build_upload_frame(fields, 1_700_000_000).unwrap();
    assert_eq!(frame.id, 7);
    assert_eq!(frame.data, vec![1, 2, 3]);
    assert_eq!(frame.timestamp, 1_700_000_000);
    assert_eq!(frame.metadata.len(), 1);
    assert_eq!(frame.metadata[0].key, "content-type");
    assert_eq!(frame.metadata[0].value, "image/png");
}

#[test]
fn test_build_upload_frame_defaults_id() {
    let fields = vec![image_field(vec![9])];
    let frame = build_upload_frame(fields, 5).unwrap();
    assert_eq!(frame.id, 0);
}

#[test]
fn test_build_upload_frame_last_image_wins() {
    let fields = vec![image_field(vec![1]), image_field(vec![2, 2])];
    let frame = build_upload_frame(fields, 5).unwrap();
    assert_eq!(frame.data, vec![2, 2]);
}

#[test]
fn test_build_upload_frame_missing_image() {
    let fields = vec![frame_id_field("7")];
    assert_eq!(build_upload_frame(fields, 5).unwrap_err(), UploadError::MissingImage);
    assert_eq!(build_upload_frame(Vec::new(), 5).unwrap_err(), UploadError::MissingImage);
}

#[test]
fn test_build_upload_frame_invalid_id() {
    let fields = vec![image_field(vec![1]), frame_id_field("seven")];
    assert_eq!(build_upload_frame(fields, 5).unwrap_err(), UploadError::InvalidFrameId);
}

#[test]
fn test_parse_i64_accepts_decimals() {
    assert_eq!(parse_i64("42"), Some(42));
    assert_eq!(parse_i64("-42"), Some(-42));
    assert_eq!(parse_i64("+5"), Some(5));
    assert_eq!(parse_i64("0"), Some(0));
    assert_eq!(parse_i64("9223372036854775807"), Some(i64::MAX));
    assert_eq!(parse_i64("-9223372036854775808"), Some(i64::MIN));
}

#[test]
fn test_parse_i64_rejects_junk() {
    assert_eq!(parse_i64(""), None);
    assert_eq!(parse_i64("-"), None);
    assert_eq!(parse_i64("abc"), None);
    assert_eq!(parse_i64("12x"), None);
    assert_eq!(parse_i64("9223372036854775808"), None);
    assert_eq!(parse_i64("-9223372036854775809"), None);
    assert_eq!(parse_i64("99999999999999999999999999"), None);
}

#[test]
fn test_i64_to_string_renders_decimals() {
    assert_eq!(i64_to_string(0), "0");
    assert_eq!(i64_to_string(42), "42");
    assert_eq!(i64_to_string(-42), "-42");
    assert_eq!(i64_to_string(i64::MAX), "9223372036854775807");
    assert_eq!(i64_to_string(i64::MIN), "-9223372036854775808");
}

#[test]
fn test_decimal_round_trip() {
    for n in [0, 1, -1, 42, -42, 10_000, i64::MAX, i64::MIN] {
        assert_eq!(parse_i64(&i64_to_string(n)), Some(n));
    }
}

#[test]
fn test_classify_status() {
    assert_eq!(classify_status(200), StatusClass::Success);
    assert_eq!(classify_status(299), StatusClass::Success);
    assert_eq!(classify_status(404), StatusClass::ClientError);
    assert_eq!(classify_status(500), StatusClass::ServerError);
    assert_eq!(classify_status(302), StatusClass::Other);
    assert!(is_success_status(204));
    assert!(!is_success_status(404));
}

#[test]
fn test_engine_assembles_frame() {
    let engine = Engine::new(Config { interval_ms: 1_000, format: FrameFormat::Jpeg });
    let frame = engine.assemble_frame(3, 1_700_000_000, vec![0xff, 0xd8], 640, 480);
    assert_eq!(frame.id, 3);
    assert_eq!(frame.size_bytes, 2);
    assert_eq!(frame.format, "jpeg");
    assert_eq!(frame.width, 640);
    assert_eq!(frame.height, 480);
}

#[test]
fn test_engine_creation() {
    let config = Config::default();
    let engine = Engine::new(config);
    assert!(std::mem::size_of_val(&engine) > 0);
}

#[test]
fn test_default_capture_config() {
    let config = Config::default();
    assert_eq!(config.interval_ms, 1_500);
    assert_eq!(config.format, FrameFormat::Png);
}

#[test]
fn test_websocket_broadcast_accepts() {
    let ws = WebSocketServer::new();
    assert!(ws.broadcast(&vec![1, 2, 3]).is_ok());
    let default_ws = WebSocketServer::default();
    assert!(default_ws.broadcast(&Vec::new()).is_ok());
}
