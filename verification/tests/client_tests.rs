use openai_responses::client::Error;
use openai_responses::client::classify_error_response;
use openai_responses::client::code_wire_str;
use openai_responses::client::delete_outcome;
use openai_responses::client::is_success_status;
use openai_responses::client::parse_error_code;
use openai_responses::client::response_error_from_fields;
use openai_responses::decode::DecodeCause;
use openai_responses::decode::DecodeError;
use openai_responses::models::ResponseErrorCode;

#[test]
fn success_statuses_are_exactly_the_2xx_range() {
    assert!(!is_success_status(199));
    assert!(is_success_status(200));
    assert!(is_success_status(204));
    assert!(is_success_status(299));
    assert!(!is_success_status(300));
    assert!(!is_success_status(404));
    assert!(!is_success_status(500));
}

#[test]
fn structured_error_body_becomes_api_error() {
    let e = classify_error_response(
        429,
        "{\"code\":\"rate_limit_exceeded\",\"message\":\"slow down\"}".to_string(),
    );
    match e {
        Error::ApiError { status, error } => {
            assert_eq!(status, 429);
            assert_eq!(error.code, ResponseErrorCode::RateLimitExceeded);
            assert_eq!(error.message, "slow down");
        }
        other => panic!("expected the API error, got {other:?}"),
    }
}

#[test]
fn non_json_error_body_becomes_unexpected_response() {
    let e = classify_error_response(500, "not json".to_string());
    match e {
        Error::UnexpectedResponse { status, body } => {
            assert_eq!(status, 500);
            assert_eq!(body, "not json");
        }
        other => panic!("expected the unexpected-response error, got {other:?}"),
    }
}

#[test]
fn unknown_code_in_envelope_becomes_unexpected_response() {
    let e = classify_error_response(500, "{\"code\":\"novel\",\"message\":\"m\"}".to_string());
    assert!(matches!(e, Error::UnexpectedResponse { status: 500, .. }));
}

#[test]
fn envelope_without_message_becomes_unexpected_response() {
    let e = classify_error_response(500, "{\"code\":\"server_error\"}".to_string());
    assert!(matches!(e, Error::UnexpectedResponse { status: 500, .. }));
}

#[test]
fn envelope_with_extra_fields_still_matches() {
    let e = classify_error_response(
        503,
        "{\"code\":\"server_error\",\"message\":\"m\",\"details\":[1,2]}".to_string(),
    );
    match e {
        Error::ApiError { status, error } => {
            assert_eq!(status, 503);
            assert_eq!(error.code, ResponseErrorCode::ServerError);
        }
        other => panic!("expected the API error, got {other:?}"),
    }
}

#[test]
fn error_codes_round_trip_through_their_wire_names() {
    let codes = [
        ResponseErrorCode::ServerError,
        ResponseErrorCode::RateLimitExceeded,
        ResponseErrorCode::InvalidPrompt,
        ResponseErrorCode::VectorStoreTimeout,
        ResponseErrorCode::InvalidImage,
        ResponseErrorCode::InvalidImageFormat,
        ResponseErrorCode::InvalidBase64Image,
        ResponseErrorCode::InvalidImageUrl,
        ResponseErrorCode::ImageTooLarge,
        ResponseErrorCode::ImageTooSmall,
        ResponseErrorCode::ImageParseError,
        ResponseErrorCode::ImageContentPolicyViolation,
        ResponseErrorCode::InvalidImageMode,
        ResponseErrorCode::ImageFileTooLarge,
        ResponseErrorCode::UnsupportedImageMediaType,
        ResponseErrorCode::EmptyImageFile,
        ResponseErrorCode::FailedToDownloadImage,
        ResponseErrorCode::ImageFileNotFound,
    ];
    for c in codes {
        let wire = code_wire_str(&c);
        assert_eq!(parse_error_code(wire), Some(c.clone()));
    }
    assert_eq!(parse_error_code("rate_limit_exceeded"), Some(ResponseErrorCode::RateLimitExceeded));
    assert_eq!(parse_error_code("no_such_code"), None);
    assert_eq!(parse_error_code(""), None);
}

#[test]
fn envelope_needs_both_fields() {
    assert!(response_error_from_fields(None, Some("m".to_string())).is_none());
    assert!(response_error_from_fields(Some("server_error".to_string()), None).is_none());
    assert!(response_error_from_fields(Some("bogus".to_string()), Some("m".to_string())).is_none());
    let re = response_error_from_fields(
        Some("invalid_prompt".to_string()),
        Some("bad".to_string()),
    )
    .unwrap();
    assert_eq!(re.code, ResponseErrorCode::InvalidPrompt);
    assert_eq!(re.message, "bad");
}

#[test]
fn delete_outcome_mirrors_the_status() {
    assert!(delete_outcome(200, String::new()).is_ok());
    assert!(delete_outcome(204, String::new()).is_ok());
    match delete_outcome(404, "gone".to_string()) {
        Err(Error::UnexpectedResponse { status, body }) => {
            assert_eq!(status, 404);
            assert_eq!(body, "gone");
        }
        other => panic!("expected the unexpected-response error, got {other:?}"),
    }
}

#[test]
fn delete_failure_classifies_the_envelope_like_any_other_request() {
    match delete_outcome(
        429,
        "{\"code\":\"rate_limit_exceeded\",\"message\":\"slow down\"}".to_string(),
    ) {
        Err(Error::ApiError { status, error }) => {
            assert_eq!(status, 429);
            assert_eq!(error.code, ResponseErrorCode::RateLimitExceeded);
            assert_eq!(error.message, "slow down");
        }
        other => panic!("expected the API error, got {other:?}"),
    }
}

#[test]
fn describe_renders_each_category() {
    assert_eq!(
        Error::Transport("boom".to_string()).describe(),
        "Request error: boom",
    );
    assert_eq!(Error::Truncated.describe(), "Stream ended with incomplete data");
    let d = Error::Decode(DecodeError {
        path: "usage.total_tokens".to_string(),
        cause: DecodeCause::MissingField,
        raw: "{}".to_string(),
    });
    assert_eq!(d.describe(), "Serialization/deserialization error at usage.total_tokens");
    let e = classify_error_response(
        429,
        "{\"code\":\"rate_limit_exceeded\",\"message\":\"slow down\"}".to_string(),
    );
    assert_eq!(
        e.describe(),
        "API error (status 429): [RateLimitExceeded] slow down",
    );
    let u = classify_error_response(500, "not json".to_string());
    assert_eq!(
        u.describe(),
        "Unexpected API response: Status: 500, Body: not json",
    );
}
