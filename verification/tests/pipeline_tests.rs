use jsonwebtoken::{encode, EncodingKey, Header};
use serde_json::Value;

use profile_gate::errors::AppError;
use profile_gate::pipeline::authenticated_json;
use profile_gate::update_request::UpdateProfileRequest;

const SECRET: &[u8] = b"pipeline-secret";
const AUDIENCE: &str = "authenticated";

fn good_token() -> String {
    let mut m = serde_json::Map::new();
    m.insert("sub".to_string(), Value::from("u1"));
    m.insert("aud".to_string(), Value::from(AUDIENCE));
    m.insert("exp".to_string(), Value::from(4102444800u64));
    encode(&Header::default(), &Value::Object(m), &EncodingKey::from_secret(SECRET)).unwrap()
}

fn run(
    header: Option<&str>,
    body: &str,
) -> Result<(profile_gate::auth::AuthUser, profile_gate::validated_json::ValidatedJson<UpdateProfileRequest>), AppError>
{
    authenticated_json::<UpdateProfileRequest>(header, body, SECRET, AUDIENCE)
}

#[test]
fn missing_header_gives_401_before_any_body_parsing() {
    for body in ["{}", "not json at all", "{\"display_name\":\"A\"}"] {
        match run(None, body) {
            Err(e) => {
                let (status, _message, response_body) = e.to_response();
                assert_eq!(status, 401);
                assert_eq!(
                    response_body,
                    "{\"error\":{\"status\":401,\"message\":\"missing authorization header\"}}"
                );
            }
            Ok(_) => panic!("pipeline accepted a request without a header"),
        }
    }
}

#[test]
fn malformed_header_gives_401_for_any_body() {
    for body in ["{}", "###"] {
        match run(Some("Basic dXNlcg=="), body) {
            Err(AppError::Unauthorized(m)) => assert_eq!(m, "invalid authorization format"),
            other => panic!("expected Unauthorized, got {other:?}"),
        }
    }
}

#[test]
fn accepted_request_carries_identity_and_payload() {
    let token = good_token();
    let header = format!("Bearer {token}");
    let (user, payload) = run(Some(&header), "{\"display_name\":\"Ada\"}").unwrap();
    assert_eq!(user.id, "u1");
    assert_eq!(payload.0.display_name.as_deref(), Some("Ada"));
}

#[test]
fn identity_passes_then_bad_body_fails_with_400() {
    let token = good_token();
    let header = format!("Bearer {token}");
    match run(Some(&header), "not json") {
        Err(AppError::BadRequest(_)) => {}
        other => panic!("expected BadRequest, got {other:?}"),
    }
}

#[test]
fn identity_passes_then_invalid_body_fails_with_422() {
    let token = good_token();
    let header = format!("Bearer {token}");
    match run(Some(&header), "{\"display_name\":\"A\"}") {
        Err(e @ AppError::Validation(_)) => assert_eq!(e.to_response().0, 422),
        other => panic!("expected Validation, got {other:?}"),
    }
}

#[test]
fn bad_token_fails_before_the_body_is_considered() {
    match run(Some("Bearer nope"), "also not json") {
        Err(AppError::Unauthorized(m)) => assert_eq!(m, "invalid token"),
        other => panic!("expected Unauthorized, got {other:?}"),
    }
}
