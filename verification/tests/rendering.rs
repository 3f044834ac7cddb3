use axum_serde_valid::error_set::{ErrorSet, PropertyErrors};
use axum_serde_valid::response::{HttpResponse, NativeRejection};

#[test]
fn test_render_empty_error_set() {
    let set = ErrorSet::empty();
    assert_eq!(set.to_json(), "{\"errors\":[],\"properties\":{}}");
}

#[test]
fn test_render_whole_value_errors_only() {
    let set = ErrorSet {
        errors: vec![String::from("first"), String::from("second")],
        properties: Vec::new(),
    };
    assert_eq!(set.to_json(), "{\"errors\":[\"first\",\"second\"],\"properties\":{}}");
}

#[test]
fn test_render_multiple_properties_keep_order() {
    let set = ErrorSet {
        errors: Vec::new(),
        properties: vec![
            PropertyErrors {
                name: String::from("name"),
                errors: vec![String::from("too long"), String::from("bad letters")],
            },
            PropertyErrors {
                name: String::from("age"),
                errors: vec![String::from("too small")],
            },
        ],
    };
    assert_eq!(
        set.to_json(),
        "{\"errors\":[],\"properties\":{\"name\":{\"errors\":[\"too long\",\"bad letters\"]},\"age\":{\"errors\":[\"too small\"]}}}"
    );
}

#[test]
fn test_render_escapes_json_text() {
    let set = ErrorSet {
        errors: vec![String::from("quote \" backslash \\ newline \n tab \t done")],
        properties: vec![PropertyErrors {
            name: String::from("odd\rname"),
            errors: vec![String::from("control \u{01} char")],
        }],
    };
    assert_eq!(
        set.to_json(),
        "{\"errors\":[\"quote \\\" backslash \\\\ newline \\n tab \\t done\"],\"properties\":{\"odd\\rname\":{\"errors\":[\"control \\u0001 char\"]}}}"
    );
}

#[test]
fn test_render_keeps_unicode_text() {
    let set = ErrorSet {
        errors: vec![String::from("nom trop long: \u{e9}\u{3042}")],
        properties: Vec::new(),
    };
    assert_eq!(
        set.to_json(),
        "{\"errors\":[\"nom trop long: \u{e9}\u{3042}\"],\"properties\":{}}"
    );
}

#[test]
fn test_validation_response_shape() {
    let set = ErrorSet {
        errors: Vec::new(),
        properties: vec![PropertyErrors {
            name: String::from("name"),
            errors: vec![String::from("The length of the value must be `<= 3`.")],
        }],
    };
    let response = HttpResponse::of_validation(&set);
    assert_eq!(response.status, 422);
    assert_eq!(response.content_type, "application/json");
    assert_eq!(response.body, set.to_json());
}

#[test]
fn test_native_response_is_unchanged() {
    let native = NativeRejection {
        status: 413,
        content_type: String::from("text/plain; charset=utf-8"),
        body: String::from("length limit exceeded"),
    };
    let response = HttpResponse::of_native(native);
    assert_eq!(response.status, 413);
    assert_eq!(response.content_type, "text/plain; charset=utf-8");
    assert_eq!(response.body, "length limit exceeded");
}
