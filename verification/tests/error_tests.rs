use codecov_mcp::error::{
    commit_not_found, error_for_status, is_success, pull_not_found, report_not_found, AppError,
    ErrorClass,
};

#[test]
fn messages_follow_the_error_kind() {
    assert_eq!(AppError::Config("x".into()).message(), "Configuration error: x");
    assert_eq!(AppError::NotFound("commit a not found".into()).message(), "Not found: commit a not found");
    assert_eq!(
        AppError::CoverageNotReady { state: "pending".into() }.message(),
        "Coverage not ready (state: pending)"
    );
    assert_eq!(AppError::NoCoverageData("none".into()).message(), "No coverage data: none");
    assert_eq!(
        AppError::Api { status: 500, message: "boom".into() }.message(),
        "Codecov API error (500): boom"
    );
    assert!(!AppError::Unauthorized.message().is_empty());
    assert!(!AppError::Forbidden.message().is_empty());
    assert!(!AppError::RateLimited.message().is_empty());
}

#[test]
fn serialization_message_carries_the_json_error() {
    let err = serde_json::from_str::<u32>("x").unwrap_err();
    let text = err.to_string();
    let msg = AppError::Serialization(err).message();
    assert_eq!(msg, format!("Serialization error: {text}"));
}

#[test]
fn classes_split_caller_and_server_errors() {
    assert_eq!(AppError::Config("x".into()).class(), ErrorClass::InvalidParams);
    assert_eq!(AppError::NotFound("x".into()).class(), ErrorClass::InvalidParams);
    assert_eq!(AppError::NoCoverageData("x".into()).class(), ErrorClass::InternalError);
    assert_eq!(
        AppError::CoverageNotReady { state: "pending".into() }.class(),
        ErrorClass::InternalError
    );
    assert_eq!(AppError::RateLimited.class(), ErrorClass::InternalError);
    assert_eq!(AppError::Api { status: 500, message: String::new() }.class(), ErrorClass::InternalError);
}

#[test]
fn success_is_the_2xx_range() {
    assert!(is_success(200));
    assert!(is_success(204));
    assert!(is_success(299));
    assert!(!is_success(199));
    assert!(!is_success(300));
    assert!(!is_success(404));
}

#[test]
fn statuses_map_to_their_errors() {
    let nf = || "commit x not found".to_string();
    assert!(matches!(error_for_status(401, nf(), None, String::new()), AppError::Unauthorized));
    assert!(matches!(error_for_status(403, nf(), None, String::new()), AppError::Forbidden));
    assert!(matches!(error_for_status(429, nf(), None, String::new()), AppError::RateLimited));
    match error_for_status(404, nf(), Some("gone".into()), "{}".into()) {
        AppError::NotFound(m) => assert_eq!(m, "commit x not found"),
        other => panic!("expected NotFound, got {other:?}"),
    }
    match error_for_status(500, nf(), None, "Internal Server Error".into()) {
        AppError::Api { status, message } => {
            assert_eq!(status, 500);
            assert_eq!(message, "Internal Server Error");
        }
        other => panic!("expected Api, got {other:?}"),
    }
    match error_for_status(502, nf(), Some("upstream down".into()), "{\"detail\":\"upstream down\"}".into()) {
        AppError::Api { status, message } => {
            assert_eq!(status, 502);
            assert_eq!(message, "upstream down");
        }
        other => panic!("expected Api, got {other:?}"),
    }
}

#[test]
fn not_found_messages_name_what_is_missing() {
    assert_eq!(commit_not_found("abc"), "commit abc not found");
    assert_eq!(report_not_found("abc"), "report for commit abc not found");
    assert_eq!(pull_not_found(42), "pull request 42 not found");
}
