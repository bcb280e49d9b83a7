use profile_gate::errors::AppError;
use profile_gate::update_request::UpdateProfileRequest;
use profile_gate::validated_json::{validated_json, ValidatedJson};

fn extract(body: &str) -> Result<ValidatedJson<UpdateProfileRequest>, AppError> {
    validated_json::<UpdateProfileRequest>(body)
}

#[test]
fn valid_body_is_accepted() {
    let v = extract("{\"display_name\":\"Ada\",\"bio\":\"hi\"}").unwrap();
    assert_eq!(v.0.display_name.as_deref(), Some("Ada"));
    assert_eq!(v.0.bio.as_deref(), Some("hi"));
    assert_eq!(v.0.avatar_url, None);
}

#[test]
fn empty_object_is_accepted_with_no_fields() {
    let v = extract("{}").unwrap();
    assert_eq!(v.0.display_name, None);
    assert_eq!(v.0.bio, None);
    assert_eq!(v.0.avatar_url, None);
}

#[test]
fn null_fields_count_as_absent() {
    let v = extract("{\"display_name\":null,\"bio\":null,\"avatar_url\":null}").unwrap();
    assert_eq!(v.0.display_name, None);
    assert_eq!(v.0.bio, None);
    assert_eq!(v.0.avatar_url, None);
}

#[test]
fn unparseable_body_is_400_not_422() {
    let r = extract("not json at all");
    match r {
        Err(e @ AppError::BadRequest(_)) => {
            assert_eq!(e.to_response().0, 400);
        }
        other => panic!("expected BadRequest, got {other:?}"),
    }
}

#[test]
fn non_object_body_is_400() {
    for body in ["[]", "5", "\"text\"", "true"] {
        match extract(body) {
            Err(AppError::BadRequest(_)) => {}
            other => panic!("expected BadRequest for {body}, got {other:?}"),
        }
    }
}

#[test]
fn wrong_field_type_is_400() {
    match extract("{\"display_name\":5}") {
        Err(AppError::BadRequest(_)) => {}
        other => panic!("expected BadRequest, got {other:?}"),
    }
}

#[test]
fn short_display_name_is_422_naming_the_field() {
    let r = extract("{\"display_name\":\"A\"}");
    match r {
        Err(e @ AppError::Validation(_)) => {
            let (status, message, _body) = e.to_response();
            assert_eq!(status, 422);
            assert_eq!(message, "display_name: length");
        }
        other => panic!("expected Validation, got {other:?}"),
    }
}

#[test]
fn every_violated_field_is_listed_not_only_the_first() {
    let long_bio = "b".repeat(501);
    let body = format!("{{\"display_name\":\"A\",\"bio\":\"{long_bio}\"}}");
    match extract(&body) {
        Err(e @ AppError::Validation(_)) => {
            let violations = match &e {
                AppError::Validation(vs) => vs.clone(),
                _ => unreachable!(),
            };
            assert_eq!(violations.len(), 2);
            assert_eq!(violations[0].field, "display_name");
            assert_eq!(violations[0].rule, "length");
            assert_eq!(violations[1].field, "bio");
            assert_eq!(violations[1].rule, "length");
            let (status, message, _) = e.to_response();
            assert_eq!(status, 422);
            assert_eq!(message, "display_name: length; bio: length");
        }
        other => panic!("expected Validation, got {other:?}"),
    }
}

#[test]
fn length_bounds_are_inclusive_and_counted_in_characters() {
    let ok_name = "x".repeat(100);
    let v = extract(&format!("{{\"display_name\":\"{ok_name}\"}}")).unwrap();
    assert_eq!(v.0.display_name.as_deref(), Some(ok_name.as_str()));

    let too_long = "x".repeat(101);
    assert!(matches!(
        extract(&format!("{{\"display_name\":\"{too_long}\"}}")),
        Err(AppError::Validation(_))
    ));

    let two_chars = "éß";
    let v = extract(&format!("{{\"display_name\":\"{two_chars}\"}}")).unwrap();
    assert_eq!(v.0.display_name.as_deref(), Some(two_chars));

    let ok_bio = "y".repeat(500);
    assert!(extract(&format!("{{\"bio\":\"{ok_bio}\"}}")).is_ok());

    let ok_url = "z".repeat(2048);
    assert!(extract(&format!("{{\"avatar_url\":\"{ok_url}\"}}")).is_ok());
    let long_url = "z".repeat(2049);
    assert!(matches!(
        extract(&format!("{{\"avatar_url\":\"{long_url}\"}}")),
        Err(AppError::Validation(_))
    ));
}

#[test]
fn extraction_is_deterministic_for_the_same_body() {
    let body = "{\"display_name\":\"Ada\",\"avatar_url\":\"http://a/b\"}";
    let a = extract(body).unwrap();
    let b = extract(body).unwrap();
    assert_eq!(a.0.display_name, b.0.display_name);
    assert_eq!(a.0.bio, b.0.bio);
    assert_eq!(a.0.avatar_url, b.0.avatar_url);
}
