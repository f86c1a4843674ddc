use rust_open_ai::assistant::AssistantBuilder;
use rust_open_ai::error::OpenApiError;

#[test]
fn invalid_length_message_carries_both_lengths() {
    let refused = AssistantBuilder::new("gpt-4").with_name("x".repeat(300)).unwrap_err();
    assert_eq!(refused.error.to_string(), "Length of 300 exceeds maximum of 256");
    assert_eq!(OpenApiError::InvalidLength(0, 7).to_string(), "Length of 0 exceeds maximum of 7");
    assert_eq!(
        OpenApiError::InvalidLength(1234567890, 10).to_string(),
        "Length of 1234567890 exceeds maximum of 10"
    );
}

#[test]
fn client_error_message_carries_its_text() {
    assert_eq!(OpenApiError::ClientError("no key".to_string()).to_string(), "ClientError: no key");
    assert_eq!(OpenApiError::NotArray.to_string(), "OpenApiError has occurred.");
    assert_eq!(
        OpenApiError::RestrictedValue("x".to_string()).to_string(),
        "OpenApiError has occurred."
    );
}

#[test]
fn operation_error_keeps_its_parts() {
    match OpenApiError::new_operation_err("poll".to_string(), "no messages".to_string(), 17, "main".to_string()) {
        OpenApiError::OperationError(e) => {
            assert_eq!(e.origin, "poll");
            assert_eq!(e.reason, "no messages");
            assert_eq!(e.created, 17);
            assert_eq!(e.thread_id, "main");
        }
        other => panic!("unexpected {:?}", other),
    }
}

#[test]
fn outside_errors_convert_unmodified() {
    let json_err = serde_json::from_str::<u32>("not json").unwrap_err();
    let text = json_err.to_string();
    match OpenApiError::from(json_err) {
        OpenApiError::SerdeJsonError(e) => assert_eq!(e.to_string(), text),
        other => panic!("unexpected {:?}", other),
    }
    let url_err = url::Url::parse("no scheme").unwrap_err();
    assert!(matches!(OpenApiError::from(url_err), OpenApiError::UrlParseError(e) if e == url_err));
}
