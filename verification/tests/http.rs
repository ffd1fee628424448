use agnt5_sdk_core::error::{ErrorCode, SdkError};
use agnt5_sdk_core::lm::http::{
    calculate_retry_delay, classify_response, classify_send_error, delay_with_jitter,
    extract_metadata, extract_request_id, parse_error_message, parse_retry_after, reset_header,
    to_sdk_error, ErrorDetail, FlatError, NestedError, RetryConfig, RetryLoop, RetryStep, SendFault,
};
use serde_json::Value;

fn nested(body: &str) -> Option<NestedError> {
    let value: Value = serde_json::from_str(body).ok()?;
    let message = value.get("error")?.get("message")?.as_str()?.to_string();
    Some(NestedError { error: ErrorDetail { message } })
}

fn flat(body: &str) -> Option<FlatError> {
    let value: Value = serde_json::from_str(body).ok()?;
    Some(FlatError { message: value.get("message")?.as_str()?.to_string() })
}

fn header(name: &str, value: &str) -> (String, Option<String>) {
    (name.to_string(), Some(value.to_string()))
}

#[test]
fn test_retry_config_defaults() {
    let config = RetryConfig::default();
    assert_eq!(config.max_retries, 2);
    assert_eq!(config.initial_delay_ms, 500);
    assert_eq!(config.max_delay_ms, 8 * 1000);
    let jitter_factor = config.jitter_ppm as f64 / 1_000_000.0;
    assert!((jitter_factor - 0.25).abs() < f64::EPSILON);
}

#[test]
fn test_retry_config_disabled() {
    let config = RetryConfig::disabled();
    assert_eq!(config.max_retries, 0);
}

#[test]
fn test_retry_delay_exponential_growth() {
    let config = RetryConfig {
        initial_delay_ms: 500,
        max_delay_ms: 8000,
        jitter_ppm: 0,
        ..RetryConfig::default()
    };

    let d1 = calculate_retry_delay(&config, 1, None);
    let d2 = calculate_retry_delay(&config, 2, None);
    let d3 = calculate_retry_delay(&config, 3, None);

    assert_eq!(d1, 500);
    assert_eq!(d2, 1000);
    assert_eq!(d3, 2000);
}

#[test]
fn test_retry_delay_capped_at_max() {
    let config = RetryConfig {
        initial_delay_ms: 500,
        max_delay_ms: 2000,
        jitter_ppm: 0,
        ..RetryConfig::default()
    };

    let d5 = calculate_retry_delay(&config, 5, None);
    assert_eq!(d5, 2000);
}

#[test]
fn test_retry_delay_respects_retry_after() {
    let config = RetryConfig {
        initial_delay_ms: 500,
        max_delay_ms: 8000,
        jitter_ppm: 0,
        ..RetryConfig::default()
    };

    let server_hint = Some(5000u128);
    let delay = calculate_retry_delay(&config, 1, server_hint);

    assert_eq!(delay / 1000, 5);
}

#[test]
fn test_retry_delay_jitter_bounds() {
    let config = RetryConfig {
        initial_delay_ms: 1000,
        max_delay_ms: 8000,
        jitter_ppm: 250_000,
        ..RetryConfig::default()
    };

    for _ in 0..100 {
        let ms = calculate_retry_delay(&config, 1, None);
        assert!(ms >= 750, "delay {ms}ms below lower bound 750ms");
        assert!(ms <= 1250, "delay {ms}ms above upper bound 1250ms");
    }
}

#[test]
fn jitter_is_drawn_anew() {
    let config = RetryConfig {
        initial_delay_ms: 1_000_000,
        max_delay_ms: 1_000_000,
        jitter_ppm: 250_000,
        ..RetryConfig::default()
    };
    let delays: Vec<u128> = (0..50).map(|_| calculate_retry_delay(&config, 1, None)).collect();
    assert!(delays.iter().any(|d| *d != delays[0]));
    assert_eq!(delay_with_jitter(&config, 1, 250_000, None), 1_250_000);
    assert_eq!(delay_with_jitter(&config, 1, -250_000, None), 750_000);
}

#[test]
fn test_parse_error_message_nested() {
    let body = r#"{"error": {"message": "Rate limit exceeded"}}"#;
    assert_eq!(parse_error_message(nested(body), flat(body)), Some("Rate limit exceeded".to_string()));
}

#[test]
fn test_parse_error_message_flat() {
    let body = r#"{"message": "Unauthorized"}"#;
    assert_eq!(parse_error_message(nested(body), flat(body)), Some("Unauthorized".to_string()));
}

#[test]
fn test_parse_error_message_unparseable() {
    let body = "Internal Server Error";
    assert_eq!(parse_error_message(nested(body), flat(body)), None);
}

#[test]
fn an_error_in_a_field_counts_first() {
    let body = r#"{"error": {"message": "inner"}, "message": "outer"}"#;
    assert_eq!(parse_error_message(nested(body), flat(body)).as_deref(), Some("inner"));
}

#[test]
fn retry_settings_come_from_the_environment() {
    let config = RetryConfig::from_env(Some("5"), Some("100"), Some("oops"));
    assert_eq!(config.max_retries, 5);
    assert_eq!(config.initial_delay_ms, 100);
    assert_eq!(config.max_delay_ms, 8000);
}

#[test]
fn headers_tell_when_to_come_back() {
    assert_eq!(parse_retry_after(&vec![header("retry-after", "2")]), Some(2000));
    assert_eq!(parse_retry_after(&vec![header("retry-after-ms", "150")]), Some(150));
    assert_eq!(parse_retry_after(&Vec::new()), None);
    assert_eq!(
        extract_request_id(&vec![header("x-request-id", "req_1")]),
        Some("req_1".to_string())
    );
    let told = vec![header("x-request-id", "req_1"), header("x-ratelimit-reset", "1.5")];
    assert_eq!(reset_header(&told).as_deref(), Some("1.5"));
    let metadata = extract_metadata(200, &told, Some(1_500_000_000));
    assert_eq!(metadata.rate_limit_reset, Some(1_500_000_000));
    assert_eq!(metadata.status_code, Some(200));
    assert_eq!(metadata.request_id.as_deref(), Some("req_1"));
}

#[test]
fn refusals_become_errors_of_the_provider() {
    let body = r#"{"error": {"message": "slow down"}}"#;
    let info = classify_response(
        429,
        "429 Too Many Requests",
        &vec![header("retry-after", "1")],
        body,
        nested(body),
        flat(body),
        "openai",
    );
    assert_eq!(info.status, 429);
    let silent = classify_response(500, "500 Oops", &Vec::new(), "x", None, None, "openai");
    assert_eq!(silent.message, "openai API error (500 Oops): x");
    assert_eq!(info.message, "slow down");
    assert_eq!(info.retry_after_ms, Some(1000));
    match to_sdk_error(&info, "openai") {
        SdkError::LmApiError { status, provider, message, .. } => {
            assert_eq!(status, 429);
            assert_eq!(provider, "openai");
            assert_eq!(message, "slow down");
        }
        other => panic!("expected an API error, got {other:?}"),
    }
}

#[test]
fn failures_to_send_are_told_apart() {
    assert!(matches!(
        classify_send_error(SendFault::Timeout, "late", "openai"),
        SdkError::Timeout { .. }
    ));
    assert!(matches!(
        classify_send_error(SendFault::Connect, "refused", "openai"),
        SdkError::Connection { code: ErrorCode::ConnectionFailed, .. }
    ));
    assert!(!classify_send_error(SendFault::Other, "odd", "openai").is_retryable());
}

#[test]
fn the_loop_gives_up_after_its_retries() {
    let config = RetryConfig {
        max_retries: 2,
        initial_delay_ms: 10,
        max_delay_ms: 20,
        jitter_ppm: 0,
    };
    let mut retries = RetryLoop::new(config);
    let fault = || SdkError::Connection {
        message: "refused".to_string(),
        code: ErrorCode::ConnectionFailed,
    };
    assert!(matches!(retries.on_failure(fault(), None), RetryStep::Again { delay_ms: 10 }));
    assert!(matches!(retries.on_failure(fault(), Some(50)), RetryStep::Again { delay_ms: 50 }));
    assert!(matches!(retries.on_failure(fault(), None), RetryStep::GiveUp(_)));
    let mut once = RetryLoop::new(RetryConfig::default());
    let refused = SdkError::LmApiError {
        status: 401,
        provider: "openai".to_string(),
        message: "no".to_string(),
        request_id: None,
    };
    assert!(matches!(once.on_failure(refused, None), RetryStep::GiveUp(_)));
}
