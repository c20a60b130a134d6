use parrot_api::config::{log_level_of, stage_of, LogLevel, Stage};
use parrot_api::eleven_labs::ElevenLabs;
use parrot_api::errors::{ApiError, AppError, PipelineError};
use parrot_api::helpers::authenticate;
use parrot_api::output::OutputStatus;
use parrot_api::voice::VoiceStatus;

#[test]
fn stage_parsing() {
    assert!(matches!(stage_of("LOCAL"), Stage::Local));
    assert!(matches!(stage_of("PROD"), Stage::Prod));
    assert!(matches!(stage_of("TEST"), Stage::Test));
    match stage_of("STAGING") {
        Stage::Other(s) => assert_eq!(s, "STAGING"),
        _ => panic!("expected the unknown stage to be kept"),
    }
}

#[test]
fn log_level_parsing() {
    assert_eq!(log_level_of("DEBUG"), LogLevel::Debug);
    assert_eq!(log_level_of("INFO"), LogLevel::Info);
    assert_eq!(log_level_of("ERROR"), LogLevel::Error);
    assert_eq!(log_level_of("TRACE"), LogLevel::Error);
}

#[test]
fn status_labels() {
    assert_eq!(VoiceStatus::Active.to_string(), "Active");
    assert_eq!(VoiceStatus::Draft.to_string(), "Draft");
    assert_eq!(VoiceStatus::Training.to_string(), "Training");
    assert_eq!(VoiceStatus::Deleted.to_string(), "Deleted");
    assert_eq!(OutputStatus::Pending.to_string(), "Pending");
    assert_eq!(OutputStatus::Done.to_string(), "Done");
}

#[test]
fn app_error_responses() {
    let e = AppError::Unauthorized { error: None };
    assert_eq!(e.status_code(), 401);
    assert_eq!(e.error_response(), "{\"error\":\"unauthorized\"}");
    let e = AppError::NotFound { error: Some("no voice found".to_string()) };
    assert_eq!(e.status_code(), 404);
    assert_eq!(e.error_response(), "{\"error\":\"no voice found\"}");
    let e = AppError::InternalServerError { error: None };
    assert_eq!(e.status_code(), 500);
    assert_eq!(e.error_response(), "{\"error\":\"internal server error\"}");
    let e = ApiError("boom".to_string());
    assert_eq!(e.status_code(), 500);
    assert_eq!(e.error_response(), "{\"error\":\"boom\"}");
}

#[test]
fn retryability() {
    assert!(PipelineError::UpstreamFailure.retryable());
    assert!(!PipelineError::NotFound.retryable());
    assert!(!PipelineError::Conflict.retryable());
    assert!(!PipelineError::InvalidState.retryable());
    assert!(!PipelineError::InvalidInput.retryable());
    assert!(!PipelineError::QuotaExceeded.retryable());
}

#[test]
fn authentication_checks_bearer_token() {
    assert!(authenticate(Some("Bearer sesame"), "sesame").is_ok());
    assert!(authenticate(Some("Bearer sesame extra"), "sesame").is_ok());

    let err = authenticate(None, "sesame").unwrap_err();
    assert_eq!(err.0, "missing authentication header");
    let err = authenticate(Some("Bearer"), "sesame").unwrap_err();
    assert_eq!(err.0, "missing authentication token");
    let err = authenticate(Some("Bearer wrong"), "sesame").unwrap_err();
    assert_eq!(err.0, "invalid authentication token");
    let err = authenticate(Some("Bearer "), "sesame").unwrap_err();
    assert_eq!(err.0, "invalid authentication token");
}

#[test]
fn eleven_labs_client_shape() {
    let c = ElevenLabs::new("api-key".to_string());
    assert_eq!(c.api_key, "api-key");
    assert_eq!(ElevenLabs::base_url(), "https://api.elevenlabs.io/v1");
}
