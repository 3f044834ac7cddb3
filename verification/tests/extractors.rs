use axum_serde_valid::error_set::{ErrorSet, PropertyErrors};
use axum_serde_valid::extract::rejection::{JsonRejection, QueryRejection};
use axum_serde_valid::json::Json;
use axum_serde_valid::extract::query::Query;
use axum_serde_valid::rejection::Rejection;
use axum_serde_valid::response::NativeRejection;
use axum_serde_valid::user::User;
use axum_serde_valid::validate::Validatable;

const TARO_BODY: &str = "{\"errors\":[],\"properties\":{\"name\":{\"errors\":[\"The length of the value must be `<= 3`.\"]}}}";

#[test]
fn test_json() {
    let user = User { name: String::from("taro") };
    let outcome = Json::from_request(Ok(user));
    let rejection = match outcome {
        Ok(_) => panic!("a four-character name must be rejected"),
        Err(rejection) => rejection,
    };
    let response = rejection.into_response();
    assert_eq!(response.status, 422);
    assert_eq!(response.content_type, "application/json");
    assert_eq!(response.body, TARO_BODY);
}

#[test]
fn test_json_accepts_valid_name() {
    let user = User { name: String::from("abc") };
    let outcome = Json::from_request(Ok(user));
    match outcome {
        Ok(payload) => assert_eq!(payload.deref().name, "abc"),
        Err(_) => panic!("a three-character name must be accepted"),
    }
}

#[test]
fn test_json_passes_native_rejection_through() {
    let native = NativeRejection {
        status: 400,
        content_type: String::from("text/plain; charset=utf-8"),
        body: String::from("Failed to parse the request body as JSON: expected value at line 1 column 1"),
    };
    let outcome = Json::<User>::from_request(Err(native));
    let rejection = match outcome {
        Ok(_) => panic!("a native failure must be rejected"),
        Err(rejection) => rejection,
    };
    assert!(matches!(rejection, JsonRejection::Json(_)));
    let response = rejection.into_response();
    assert_eq!(response.status, 400);
    assert_eq!(response.content_type, "text/plain; charset=utf-8");
    assert_eq!(
        response.body,
        "Failed to parse the request body as JSON: expected value at line 1 column 1"
    );
}

#[test]
fn test_json_extraction_is_repeatable() {
    let first = Json::from_request(Ok(User { name: String::from("hanako") }));
    let second = Json::from_request(Ok(User { name: String::from("hanako") }));
    let first_response = match first {
        Ok(_) => panic!("a six-character name must be rejected"),
        Err(rejection) => rejection.into_response(),
    };
    let second_response = match second {
        Ok(_) => panic!("a six-character name must be rejected"),
        Err(rejection) => rejection.into_response(),
    };
    assert_eq!(first_response.status, second_response.status);
    assert_eq!(first_response.content_type, second_response.content_type);
    assert_eq!(first_response.body, second_response.body);
}

#[test]
fn test_json_from_checked_wraps_error_set() {
    let set = ErrorSet {
        errors: vec![String::from("whole-value violation")],
        properties: Vec::new(),
    };
    let outcome = Json::from_checked(String::from("payload"), Err(set));
    match outcome {
        Err(JsonRejection::SerdeValid(e)) => {
            assert_eq!(e.errors.len(), 1);
            assert_eq!(e.errors[0], "whole-value violation");
        },
        _ => panic!("a validation failure must become a validation rejection"),
    }
}

#[test]
fn test_json_from_value() {
    let payload = Json::from(7u64);
    assert_eq!(*payload.deref(), 7u64);
    let query = Query::from(String::from("q"));
    assert_eq!(query.deref(), "q");
}

#[test]
fn test_query() {
    let user = User { name: String::from("taro") };
    let outcome = Query::from_request_parts(Ok(user));
    let rejection = match outcome {
        Ok(_) => panic!("a four-character name must be rejected"),
        Err(rejection) => rejection,
    };
    assert!(matches!(rejection, QueryRejection::SerdeValid(_)));
    let response = rejection.into_response();
    assert_eq!(response.status, 422);
    assert_eq!(response.content_type, "application/json");
    assert_eq!(response.body, TARO_BODY);
}

#[test]
fn test_query_accepts_valid_name() {
    let user = User { name: String::from("ann") };
    let outcome = Query::from_request_parts(Ok(user));
    match outcome {
        Ok(payload) => assert_eq!(payload.deref().name, "ann"),
        Err(_) => panic!("a three-character name must be accepted"),
    }
}

#[test]
fn test_query_passes_native_rejection_through() {
    let native = NativeRejection {
        status: 400,
        content_type: String::from("text/plain; charset=utf-8"),
        body: String::from("Failed to deserialize query string: missing field `name`"),
    };
    let outcome = Query::<User>::from_request_parts(Err(native));
    let response = match outcome {
        Ok(_) => panic!("a native failure must be rejected"),
        Err(rejection) => rejection.into_response(),
    };
    assert_eq!(response.status, 400);
    assert_eq!(response.body, "Failed to deserialize query string: missing field `name`");
}

#[test]
fn test_user_validate_reports_error_set() {
    let user = User { name: String::from("long") };
    let set = match user.validate() {
        Ok(()) => panic!("a four-character name must fail validation"),
        Err(set) => set,
    };
    assert!(set.errors.is_empty());
    assert_eq!(set.properties.len(), 1);
    assert_eq!(set.properties[0].name, "name");
    assert_eq!(set.properties[0].errors, vec![String::from(
        "The length of the value must be `<= 3`.",
    )]);
    let short = User { name: String::from("abc") };
    assert!(short.validate().is_ok());
}

#[test]
fn test_combined_rejection_variants() {
    let native = NativeRejection {
        status: 415,
        content_type: String::from("text/plain; charset=utf-8"),
        body: String::from("Expected request with `Content-Type: application/json`"),
    };
    let response = Rejection::Json(native).into_response();
    assert_eq!(response.status, 415);
    assert_eq!(response.body, "Expected request with `Content-Type: application/json`");

    let native = NativeRejection {
        status: 400,
        content_type: String::from("text/plain; charset=utf-8"),
        body: String::from("Failed to deserialize query string"),
    };
    let response = Rejection::Query(native).into_response();
    assert_eq!(response.status, 400);
    assert_eq!(response.body, "Failed to deserialize query string");

    let set = ErrorSet {
        errors: Vec::new(),
        properties: vec![PropertyErrors {
            name: String::from("age"),
            errors: vec![String::from("The number must be `>= 0`.")],
        }],
    };
    let response = Rejection::SerdeValid(set).into_response();
    assert_eq!(response.status, 422);
    assert_eq!(response.content_type, "application/json");
    assert_eq!(
        response.body,
        "{\"errors\":[],\"properties\":{\"age\":{\"errors\":[\"The number must be `>= 0`.\"]}}}"
    );
}
