//! A combined rejection covering both extractors.

use vstd::prelude::*;
use crate::error_set::{ErrorSet, ErrorSetView};
use crate::response::{HttpResponse, NativeRejection, ResponseView, validation_response};

verus! {

/// Why an extraction failed, whichever extractor ran.
pub enum Rejection {
    /// The host framework refused the request body.
    Json(NativeRejection),
    /// The host framework refused the query string.
    Query(NativeRejection),
    /// The value parsed, but violated its validation rules.
    SerdeValid(ErrorSet),
}

/// Mathematical model of `Rejection`.
pub ghost enum RejectionView {
    Json(ResponseView),
    Query(ResponseView),
    SerdeValid(ErrorSetView),
}

impl View for Rejection {
    type V = RejectionView;

    open spec fn view(&self) -> RejectionView {
        match self {
            Rejection::Json(n) => RejectionView::Json(n@),
            Rejection::Query(n) => RejectionView::Query(n@),
            Rejection::SerdeValid(e) => RejectionView::SerdeValid(e@),
        }
    }
}

/// The one response each rejection maps to: native failures render as the
/// framework would, validation failures as 422 with the error set as JSON.
pub open spec fn rejection_response(r: RejectionView) -> ResponseView {
    match r {
        RejectionView::Json(native) => native,
        RejectionView::Query(native) => native,
        RejectionView::SerdeValid(e) => validation_response(e),
    }
}

impl Rejection {
    /// Render this rejection as an HTTP response.
    pub fn into_response(self) -> (r: HttpResponse)
        ensures
            r@ == rejection_response(self@),
    {
        match self {
            Rejection::Json(rejection) => HttpResponse::of_native(rejection),
            Rejection::Query(rejection) => HttpResponse::of_native(rejection),
            Rejection::SerdeValid(error) => HttpResponse::of_validation(&error),
        }
    }
}

} // verus!
