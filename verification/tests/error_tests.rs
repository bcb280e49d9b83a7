use profile_gate::errors::{AppError, Violation};

#[test]
fn not_found_echoes_its_detail() {
    let (status, message, body) = AppError::NotFound("profile not found".to_string()).to_response();
    assert_eq!(status, 404);
    assert_eq!(message, "profile not found");
    assert_eq!(body, "{\"error\":{\"status\":404,\"message\":\"profile not found\"}}");
}

#[test]
fn bad_request_echoes_its_detail() {
    let (status, message, body) = AppError::BadRequest("expected a JSON object".to_string()).to_response();
    assert_eq!(status, 400);
    assert_eq!(message, "expected a JSON object");
    assert_eq!(body, "{\"error\":{\"status\":400,\"message\":\"expected a JSON object\"}}");
}

#[test]
fn unauthorized_body_matches_the_documented_shape() {
    let (status, _message, body) =
        AppError::Unauthorized("missing authorization header".to_string()).to_response();
    assert_eq!(status, 401);
    assert_eq!(
        body,
        "{\"error\":{\"status\":401,\"message\":\"missing authorization header\"}}"
    );
}

#[test]
fn validation_lists_every_pair() {
    let vs = vec![
        Violation { field: "display_name".to_string(), rule: "length".to_string() },
        Violation { field: "bio".to_string(), rule: "length".to_string() },
    ];
    let (status, message, body) = AppError::Validation(vs).to_response();
    assert_eq!(status, 422);
    assert_eq!(message, "display_name: length; bio: length");
    assert_eq!(
        body,
        "{\"error\":{\"status\":422,\"message\":\"display_name: length; bio: length\"}}"
    );
}

#[test]
fn internal_never_echoes_its_detail() {
    let (status, message, body) =
        AppError::Internal("db health check failed: pool timeout".to_string()).to_response();
    assert_eq!(status, 500);
    assert_eq!(message, "internal server error");
    assert_eq!(body, "{\"error\":{\"status\":500,\"message\":\"internal server error\"}}");
}

#[test]
fn database_failure_is_masked_whatever_the_cause_said() {
    for cause in [
        "connection refused",
        "syntax error in query \"SELECT ...\"",
        "password authentication failed for user",
        "",
    ] {
        let (status, message, body) = AppError::Database(cause.to_string()).to_response();
        assert_eq!(status, 500);
        assert_eq!(message, "internal server error");
        assert_eq!(body, "{\"error\":{\"status\":500,\"message\":\"internal server error\"}}");
    }
}

#[test]
fn message_text_is_escaped_inside_the_body() {
    let (_, message, body) =
        AppError::BadRequest("a \"quoted\" \\ backslash\nnewline\ttab".to_string()).to_response();
    assert_eq!(message, "a \"quoted\" \\ backslash\nnewline\ttab");
    assert_eq!(
        body,
        "{\"error\":{\"status\":400,\"message\":\"a \\\"quoted\\\" \\\\ backslash\\nnewline\\ttab\"}}"
    );
}

#[test]
fn control_characters_are_escaped_as_hex() {
    let (_, _, body) = AppError::BadRequest("a\u{1}b\u{1f}c".to_string()).to_response();
    assert_eq!(body, "{\"error\":{\"status\":400,\"message\":\"a\\u0001b\\u001fc\"}}");
}

#[test]
fn every_kind_maps_to_its_status() {
    assert_eq!(AppError::NotFound(String::new()).status(), 404);
    assert_eq!(AppError::BadRequest(String::new()).status(), 400);
    assert_eq!(AppError::Unauthorized(String::new()).status(), 401);
    assert_eq!(AppError::Validation(Vec::new()).status(), 422);
    assert_eq!(AppError::Internal(String::new()).status(), 500);
    assert_eq!(AppError::Database(String::new()).status(), 500);
}
