use pulse::error::AppError;
use pulse::http::{auth_headers, handle_response_status};

#[test]
fn handle_response_status_success_200() {
    let result = handle_response_status(200, "ok");
    assert!(result.is_ok());
}

#[test]
fn handle_response_status_success_201() {
    let result = handle_response_status(201, "created");
    assert!(result.is_ok());
}

#[test]
fn handle_response_status_success_204() {
    let result = handle_response_status(204, "");
    assert!(result.is_ok());
}

#[test]
fn handle_response_status_unauthorized_401() {
    let result = handle_response_status(401, "unauthorized");
    assert!(matches!(result, Err(AppError::Unauthorized)));
}

#[test]
fn handle_response_status_rate_limited_429() {
    let result = handle_response_status(429, "too many requests");
    assert!(matches!(result, Err(AppError::RateLimited)));
}

#[test]
fn handle_response_status_client_error_400() {
    let result = handle_response_status(400, "bad request");
    assert!(matches!(result, Err(AppError::Api { status: 400, .. })));
    if let Err(AppError::Api { status, message }) = result {
        assert_eq!(status, 400);
        assert_eq!(message, "Client error: bad request");
    }
}

#[test]
fn handle_response_status_client_error_404() {
    let result = handle_response_status(404, "not found");
    assert!(matches!(result, Err(AppError::Api { status: 404, .. })));
    if let Err(AppError::Api { status, message }) = result {
        assert_eq!(status, 404);
        assert_eq!(message, "Client error: not found");
    }
}

#[test]
fn handle_response_status_server_error_500() {
    let result = handle_response_status(500, "internal server error");
    assert!(matches!(result, Err(AppError::Api { status: 500, .. })));
    if let Err(AppError::Api { status, message }) = result {
        assert_eq!(status, 500);
        assert_eq!(message, "Server error: internal server error");
    }
}

#[test]
fn handle_response_status_server_error_503() {
    let result = handle_response_status(503, "service unavailable");
    assert!(matches!(result, Err(AppError::Api { status: 503, .. })));
    if let Err(AppError::Api { status, message }) = result {
        assert_eq!(status, 503);
        assert_eq!(message, "Server error: service unavailable");
    }
}

#[test]
fn handle_response_status_unexpected_100() {
    let result = handle_response_status(100, "continue");
    assert!(matches!(result, Err(AppError::Unknown(_))));
    if let Err(AppError::Unknown(message)) = result {
        assert_eq!(message, "Unexpected status: 100");
    }
}

#[test]
fn handle_response_status_unexpected_300() {
    let result = handle_response_status(300, "redirect");
    assert!(matches!(result, Err(AppError::Unknown(_))));
    if let Err(AppError::Unknown(message)) = result {
        assert_eq!(message, "Unexpected status: 300");
    }
}

#[test]
fn handle_response_status_truncates_long_body_client_error() {
    let long_body = "x".repeat(250);
    let result = handle_response_status(400, &long_body);
    if let Err(AppError::Api { status, message }) = result {
        assert_eq!(status, 400);
        assert_eq!(message.len(), "Client error: ".len() + 200);
        assert!(message.starts_with("Client error: "));
        assert!(message.ends_with(&"x".repeat(200)));
    } else {
        panic!("expected Api error");
    }
}

#[test]
fn handle_response_status_truncates_long_body_server_error() {
    let long_body = "y".repeat(500);
    let result = handle_response_status(500, &long_body);
    if let Err(AppError::Api { status, message }) = result {
        assert_eq!(status, 500);
        assert_eq!(message.len(), "Server error: ".len() + 200);
        assert!(message.starts_with("Server error: "));
        assert!(message.ends_with(&"y".repeat(200)));
    } else {
        panic!("expected Api error");
    }
}

#[test]
fn handle_response_status_body_exactly_200_not_truncated() {
    let body = "z".repeat(200);
    let result = handle_response_status(404, &body);
    if let Err(AppError::Api { status, message }) = result {
        assert_eq!(status, 404);
        assert_eq!(message, format!("Client error: {}", "z".repeat(200)));
    } else {
        panic!("expected Api error");
    }
}

#[test]
fn handle_response_status_truncates_multibyte_without_panic() {
    let body = "误".repeat(300);
    let result = handle_response_status(503, &body);
    if let Err(AppError::Api { status, message }) = result {
        assert_eq!(status, 503);
        let body_part = message.strip_prefix("Server error: ").unwrap();
        assert_eq!(body_part.chars().count(), 200);
    } else {
        panic!("expected Api error");
    }
}

#[test]
fn auth_headers_valid_token() {
    let result = auth_headers("test_token_123");
    assert!(result.is_ok());
    let headers = result.unwrap();
    assert_eq!(headers.authorization, "Bearer test_token_123");
    assert_eq!(headers.content_type, "application/json");
}

#[test]
fn auth_headers_empty_token() {
    let result = auth_headers("");
    assert!(result.is_ok());
    let headers = result.unwrap();
    assert_eq!(headers.authorization, "Bearer ");
}

#[test]
fn auth_headers_special_characters() {
    let result = auth_headers("token-with-special!@#$%");
    assert!(result.is_ok());
}

#[test]
fn auth_headers_invalid_token_newline_rejected() {
    let result = auth_headers("token\nwith-newline");
    assert!(matches!(result, Err(AppError::Unknown(_))));
    if let Err(AppError::Unknown(msg)) = result {
        assert!(msg.contains("Invalid token format"), "got: {msg}");
    }
}

#[test]
fn auth_headers_invalid_token_null_byte_rejected() {
    let result = auth_headers("token\u{0000}bad");
    assert!(matches!(result, Err(AppError::Unknown(_))));
}

#[test]
fn auth_headers_invalid_token_carriage_return_rejected() {
    let result = auth_headers("token\r\nX-Injected: yes");
    assert!(matches!(result, Err(AppError::Unknown(_))));
}
