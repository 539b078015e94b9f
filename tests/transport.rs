use llm_api_rs::chat::CoreError;
use llm_api_rs::transport::{is_success, settle};
use llm_api_rs::{HttpOutcome, LlmApiError};

#[test]
fn unauthorized_status_is_network_error_with_body() {
    let r = settle(HttpOutcome::Received { status: 401, body: Ok("unauthorized".to_string()) });
    assert_eq!(r, Err(LlmApiError::NetworkError("unauthorized".to_string())));
}

#[test]
fn success_status_hands_body_on() {
    let r = settle(HttpOutcome::Received { status: 200, body: Ok("{\"id\":1}".to_string()) });
    assert_eq!(r, Ok("{\"id\":1}".to_string()));
    let r = settle(HttpOutcome::Received { status: 299, body: Ok("x".to_string()) });
    assert_eq!(r, Ok("x".to_string()));
}

#[test]
fn status_range_edges() {
    assert!(!is_success(199));
    assert!(is_success(200));
    assert!(is_success(204));
    assert!(is_success(299));
    assert!(!is_success(300));
    assert!(!is_success(500));
    let r = settle(HttpOutcome::Received { status: 300, body: Ok("moved".to_string()) });
    assert_eq!(r, Err(LlmApiError::NetworkError("moved".to_string())));
}

#[test]
fn transport_failure_is_network_error() {
    let r = settle(HttpOutcome::Failed("connection refused".to_string()));
    assert_eq!(r, Err(LlmApiError::NetworkError("connection refused".to_string())));
}

#[test]
fn unreadable_body_is_deserialization_error() {
    let r = settle(HttpOutcome::Received { status: 200, body: Err("truncated".to_string()) });
    assert_eq!(r, Err(LlmApiError::DeserializationError("truncated".to_string())));
    let r = settle(HttpOutcome::Received { status: 500, body: Err("truncated".to_string()) });
    assert_eq!(r, Err(LlmApiError::DeserializationError("truncated".to_string())));
}

#[test]
fn error_messages_name_their_kind() {
    assert_eq!(LlmApiError::NetworkError("unauthorized".to_string()).message(), "Network error: unauthorized");
    assert_eq!(LlmApiError::DeserializationError("x".to_string()).message(), "Deserialization error: x");
    assert_eq!(LlmApiError::AuthError("x".to_string()).message(), "Authentication error: x");
    assert_eq!(LlmApiError::ConfigError("x".to_string()).message(), "Configuration error: x");
    assert_eq!(LlmApiError::ProviderError("x".to_string()).message(), "Provider error: x");
    assert_eq!(LlmApiError::SerializationError("x".to_string()).message(), "Serialization error: x");
    let core = LlmApiError::from(CoreError::DeserializationError("y".to_string()));
    assert_eq!(core, LlmApiError::CoreError(CoreError::DeserializationError("y".to_string())));
    assert_eq!(core.message(), "Core error: Deserialization error: y");
}
