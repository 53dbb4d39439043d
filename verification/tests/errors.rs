use rust_app::error::{ApiError, FailureKind};

fn all_errors() -> Vec<ApiError> {
    vec![
        ApiError::BadRequest("bad".to_string()),
        ApiError::Unauthorized("who".to_string()),
        ApiError::Forbidden("no".to_string()),
        ApiError::NotFound("gone".to_string()),
        ApiError::Conflict("taken".to_string()),
        ApiError::InternalServerError,
        ApiError::InternalServerErrorWithMessage("boom".to_string()),
    ]
}

#[test]
fn each_error_has_its_status() {
    let codes: Vec<u16> = all_errors().iter().map(|e| e.status_code()).collect();
    assert_eq!(codes, vec![400, 401, 403, 404, 409, 500, 500]);
}

#[test]
fn each_error_body_carries_its_message() {
    let bodies: Vec<Option<String>> = all_errors()
        .iter()
        .map(|e| e.response_body().map(|b| b.msg))
        .collect();
    assert_eq!(
        bodies,
        vec![
            Some("bad".to_string()),
            Some("who".to_string()),
            Some("no".to_string()),
            Some("gone".to_string()),
            Some("taken".to_string()),
            None,
            Some("boom".to_string()),
        ]
    );
}

#[test]
fn error_text_is_message_or_variant_name() {
    let texts: Vec<String> = all_errors().iter().map(|e| e.to_text()).collect();
    assert_eq!(texts, vec!["bad", "who", "no", "gone", "taken", "InternalServerError", "boom"]);
}

#[test]
fn database_and_hashing_failures_keep_their_text() {
    assert_eq!(
        ApiError::from_failure(FailureKind::Database, "no route to host".to_string()),
        ApiError::InternalServerErrorWithMessage("no route to host".to_string())
    );
    assert_eq!(
        ApiError::from_failure(FailureKind::Hashing, "Invalid hash: x".to_string()),
        ApiError::InternalServerErrorWithMessage("Invalid hash: x".to_string())
    );
}

#[test]
fn other_failures_give_the_bare_internal_error() {
    for kind in [
        FailureKind::Environment,
        FailureKind::InvalidHeader,
        FailureKind::Token,
        FailureKind::MailContent,
        FailureKind::MailTransport,
    ] {
        assert_eq!(ApiError::from_failure(kind, "detail".to_string()), ApiError::InternalServerError);
    }
}

#[test]
fn only_dropped_descriptions_are_logged() {
    assert!(!FailureKind::Database.logs_detail());
    assert!(!FailureKind::Hashing.logs_detail());
    assert!(FailureKind::Environment.logs_detail());
    assert!(FailureKind::InvalidHeader.logs_detail());
    assert!(FailureKind::Token.logs_detail());
    assert!(FailureKind::MailContent.logs_detail());
    assert!(FailureKind::MailTransport.logs_detail());
}
