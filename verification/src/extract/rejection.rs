//! The terminal failure outcomes of the two extractors, and their rendering
//! as HTTP responses.

use vstd::prelude::*;
use crate::error_set::{ErrorSet, ErrorSetView};
use crate::response::{HttpResponse, NativeRejection, ResponseView, validation_response};

verus! {

/// Why extracting a request body failed.
pub enum JsonRejection {
    /// The host framework refused the body before validation could run.
    Json(NativeRejection),
    /// The body parsed, but the value violated its validation rules.
    SerdeValid(ErrorSet),
}

/// Why extracting a query string failed.
pub enum QueryRejection {
    /// The host framework refused the query string before validation could run.
    Query(NativeRejection),
    /// The query string parsed, but the value violated its validation rules.
    SerdeValid(ErrorSet),
}

/// Mathematical model of `JsonRejection`.
pub ghost enum JsonRejectionView {
    Json(ResponseView),
    SerdeValid(ErrorSetView),
}

/// Mathematical model of `QueryRejection`.
pub ghost enum QueryRejectionView {
    Query(ResponseView),
    SerdeValid(ErrorSetView),
}

impl View for JsonRejection {
    type V = JsonRejectionView;

    open spec fn view(&self) -> JsonRejectionView {
        match self {
            JsonRejection::Json(n) => JsonRejectionView::Json(n@),
            JsonRejection::SerdeValid(e) => JsonRejectionView::SerdeValid(e@),
        }
    }
}

impl View for QueryRejection {
    type V = QueryRejectionView;

    open spec fn view(&self) -> QueryRejectionView {
        match self {
            QueryRejection::Query(n) => QueryRejectionView::Query(n@),
            QueryRejection::SerdeValid(e) => QueryRejectionView::SerdeValid(e@),
        }
    }
}

/// The one response each body rejection maps to: native failures render as the
/// framework would, validation failures as 422 with the error set as JSON.
pub open spec fn json_rejection_response(r: JsonRejectionView) -> ResponseView {
    match r {
        JsonRejectionView::Json(native) => native,
        JsonRejectionView::SerdeValid(e) => validation_response(e),
    }
}

/// The one response each query rejection maps to.
pub open spec fn query_rejection_response(r: QueryRejectionView) -> ResponseView {
    match r {
        QueryRejectionView::Query(native) => native,
        QueryRejectionView::SerdeValid(e) => validation_response(e),
    }
}

impl JsonRejection {
    /// Render this rejection as an HTTP response.
    pub fn into_response(self) -> (r: HttpResponse)
        ensures
            r@ == json_rejection_response(self@),
    {
        match self {
            JsonRejection::Json(rejection) => HttpResponse::of_native(rejection),
            JsonRejection::SerdeValid(error) => HttpResponse::of_validation(&error),
        }
    }
}

impl QueryRejection {
    /// Render this rejection as an HTTP response.
    pub fn into_response(self) -> (r: HttpResponse)
        ensures
            r@ == query_rejection_response(self@),
    {
        match self {
            QueryRejection::Query(rejection) => HttpResponse::of_native(rejection),
            QueryRejection::SerdeValid(error) => HttpResponse::of_validation(&error),
        }
    }
}

} // verus!
