//! Plain models of the HTTP values that extraction produces and consumes: the
//! response handed back on failure, and the host framework's own rejection,
//! held as the response it would natively render.

use vstd::prelude::*;
use crate::UNPROCESSABLE_ENTITY;
use crate::error_set::{ErrorSet, ErrorSetView};
use crate::render::json_error_set;

verus! {

/// Mathematical model of a rendered HTTP response.
pub ghost struct ResponseView {
    pub status: u16,
    pub content_type: Seq<char>,
    pub body: Seq<char>,
}

/// A rendered HTTP response: status line, content type and body text.
pub struct HttpResponse {
    /// The HTTP status code.
    pub status: u16,
    /// The value of the `Content-Type` header.
    pub content_type: String,
    /// The response body.
    pub body: String,
}

impl View for HttpResponse {
    type V = ResponseView;

    open spec fn view(&self) -> ResponseView {
        ResponseView { status: self.status, content_type: self.content_type@, body: self.body@ }
    }
}

/// A rejection raised by the host framework's own deserialization step,
/// carried as the response that framework would natively render for it.
pub struct NativeRejection {
    /// The status the framework would answer with.
    pub status: u16,
    /// The content type of the framework's own error body.
    pub content_type: String,
    /// The framework's own error body.
    pub body: String,
}

impl View for NativeRejection {
    type V = ResponseView;

    open spec fn view(&self) -> ResponseView {
        ResponseView { status: self.status, content_type: self.content_type@, body: self.body@ }
    }
}

/// The one response that a validation failure maps to: status 422 with the
/// error set rendered as JSON.
pub open spec fn validation_response(e: ErrorSetView) -> ResponseView {
    ResponseView {
        status: UNPROCESSABLE_ENTITY,
        content_type: "application/json"@,
        body: json_error_set(e),
    }
}

impl HttpResponse {
    /// Render a native rejection unchanged, exactly as the framework would.
    pub fn of_native(rejection: NativeRejection) -> (r: HttpResponse)
        ensures
            r@ == rejection@,
    {
        HttpResponse {
            status: rejection.status,
            content_type: rejection.content_type,
            body: rejection.body,
        }
    }

    /// Render a validation failure: status 422, JSON body of the error set.
    pub fn of_validation(errors: &ErrorSet) -> (r: HttpResponse)
        ensures
            r@ == validation_response(errors@),
    {
        HttpResponse {
            status: UNPROCESSABLE_ENTITY,
            content_type: String::from_str("application/json"),
            body: errors.to_json(),
        }
    }
}

} // verus!
