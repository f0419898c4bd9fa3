use unitree_sdk2_rust::error::SdkError;
use unitree_sdk2_rust::text::{append_decimal, append_signed_decimal};

#[test]
fn display_channel_error() {
    let err = SdkError::Channel("connection refused".into());
    assert_eq!(err.to_string(), "Channel error: connection refused");
}

#[test]
fn display_init_error() {
    let err = SdkError::Init("already initialized".into());
    assert_eq!(err.to_string(), "Initialization error: already initialized");
}

#[test]
fn display_serialization_error() {
    let err = SdkError::Serialization("invalid json".into());
    assert_eq!(err.to_string(), "Serialization error: invalid json");
}

#[test]
fn display_timeout() {
    let err = SdkError::Timeout;
    assert_eq!(err.to_string(), "Timeout");
}

#[test]
fn display_not_initialized() {
    let err = SdkError::NotInitialized;
    assert_eq!(err.to_string(), "Not initialized");
}

#[test]
fn display_api_error() {
    let err = SdkError::ApiError(-1);
    assert_eq!(err.to_string(), "API error code: -1");
}

#[test]
fn display_api_error_at_the_limits() {
    assert_eq!(SdkError::ApiError(42).to_string(), "API error code: 42");
    assert_eq!(SdkError::ApiError(0).to_string(), "API error code: 0");
    assert_eq!(SdkError::ApiError(i32::MAX).to_string(), "API error code: 2147483647");
    assert_eq!(SdkError::ApiError(i32::MIN).to_string(), "API error code: -2147483648");
}

#[test]
fn error_debug_format() {
    let err = SdkError::Timeout;
    let debug = format!("{:?}", err);
    assert!(debug.contains("Timeout"));
}

#[test]
fn is_std_error() {
    let err: Box<SdkError> = Box::new(SdkError::Timeout);
    assert_eq!(err.to_string(), "Timeout");
}

#[test]
fn decimal_numerals() {
    let mut text = String::from("n=");
    append_decimal(&mut text, 0);
    assert_eq!(text, "n=0");
    let mut text = String::new();
    append_decimal(&mut text, 9);
    append_decimal(&mut text, 10);
    append_decimal(&mut text, 1004);
    assert_eq!(text, "9101004");
    let mut text = String::new();
    append_decimal(&mut text, u64::MAX);
    assert_eq!(text, "18446744073709551615");
    let mut text = String::new();
    append_signed_decimal(&mut text, i64::MIN);
    assert_eq!(text, "-9223372036854775808");
    let mut text = String::new();
    append_signed_decimal(&mut text, -7);
    append_signed_decimal(&mut text, 7);
    assert_eq!(text, "-77");
}
