//! Tests for the response classifier: the status short-circuit, the code
//! field precedence, and the synthesised fallback payload.

use docaroo_rs::client::{classify_failure, fallback_error_response, is_success_status};
use docaroo_rs::error::DocarooError;
use docaroo_rs::models::{ErrorDetails, ErrorResponse};

fn body(error: &str, message: &str) -> ErrorResponse {
    ErrorResponse {
        error: error.to_string(),
        message: message.to_string(),
        details: None,
        request_id: None,
        timestamp: None,
    }
}

#[test]
fn test_success_status_range() {
    assert!(is_success_status(200));
    assert!(is_success_status(204));
    assert!(is_success_status(299));
    assert!(!is_success_status(199));
    assert!(!is_success_status(300));
    assert!(!is_success_status(400));
    assert!(!is_success_status(500));
}

#[test]
fn test_classify_401_any_body() {
    let error = classify_failure(401, Some(body("anything_at_all", "who are you")));
    match error {
        DocarooError::AuthenticationFailed(message) => assert_eq!(message, "who are you"),
        _ => panic!("Expected AuthenticationFailed"),
    }
    // A 401 is an authentication failure even if its body claims throttling.
    let error = classify_failure(401, Some(body("rate_limit_exceeded", "slow down")));
    assert!(matches!(error, DocarooError::AuthenticationFailed(_)));
}

#[test]
fn test_classify_400_any_body() {
    let error = classify_failure(400, Some(body("something_else", "bad npis")));
    match error {
        DocarooError::InvalidRequest(message) => assert_eq!(message, "bad npis"),
        _ => panic!("Expected InvalidRequest"),
    }
}

#[test]
fn test_classify_429_rate_limit_with_details() {
    let mut response = body("rate_limit_exceeded", "Too many requests");
    response.details = Some(ErrorDetails {
        retry_after: Some(120),
    });
    let error = classify_failure(429, Some(response));
    match error {
        DocarooError::RateLimitExceeded { retry_after } => assert_eq!(retry_after, 120),
        _ => panic!("Expected RateLimitExceeded"),
    }
}

#[test]
fn test_classify_429_rate_limit_without_details() {
    let error = classify_failure(429, Some(body("rate_limit_exceeded", "Too many requests")));
    match error {
        DocarooError::RateLimitExceeded { retry_after } => assert_eq!(retry_after, 60),
        _ => panic!("Expected RateLimitExceeded"),
    }
}

#[test]
fn test_classify_429_unauthorized_body_wins() {
    // Away from 400 and 401 the code field decides, whatever the status.
    let error = classify_failure(429, Some(body("unauthorized", "bad key")));
    match error {
        DocarooError::AuthenticationFailed(message) => assert_eq!(message, "bad key"),
        _ => panic!("Expected AuthenticationFailed"),
    }
}

#[test]
fn test_classify_500_api_error() {
    let error = classify_failure(500, Some(body("server_boom", "x")));
    match error {
        DocarooError::ApiError {
            code,
            message,
            request_id,
        } => {
            assert_eq!(code, "server_boom");
            assert_eq!(message, "x");
            assert_eq!(request_id, None);
        }
        _ => panic!("Expected ApiError"),
    }
}

#[test]
fn test_classify_500_undecodable_body() {
    let error = classify_failure(500, None);
    match error {
        DocarooError::ApiError {
            code,
            message,
            request_id,
        } => {
            assert_eq!(code, "500");
            assert_eq!(message, "HTTP 500 error");
            assert_eq!(request_id, None);
        }
        _ => panic!("Expected ApiError"),
    }
}

#[test]
fn test_classify_401_undecodable_body() {
    let error = classify_failure(401, None);
    match error {
        DocarooError::AuthenticationFailed(message) => assert_eq!(message, "HTTP 401 error"),
        _ => panic!("Expected AuthenticationFailed"),
    }
}

#[test]
fn test_fallback_error_response_fields() {
    let response = fallback_error_response(503);
    assert_eq!(response.error, "503");
    assert_eq!(response.message, "HTTP 503 error");
    assert!(response.details.is_none());
    assert!(response.request_id.is_none());
    assert!(response.timestamp.is_none());
}

#[test]
fn test_classified_errors_keep_retry_contract() {
    assert!(classify_failure(429, Some(body("rate_limit_exceeded", "m"))).is_retryable());
    assert!(!classify_failure(401, None).is_retryable());
    assert!(!classify_failure(400, None).is_retryable());
    assert!(!classify_failure(500, None).is_retryable());
}
