//! The request-body extractor: a typed payload that reaches the handler only
//! after the host framework deserialized it and its validation rules passed.

use vstd::prelude::*;
use crate::error_set::ErrorSet;
use crate::extract::rejection::{JsonRejection, json_rejection_response};
use crate::response::NativeRejection;
use crate::validate::Validatable;

verus! {

/// A validated request-body payload.
///
/// The extraction pipeline delivers a value of this type only when validation
/// succeeded; a bare value can still be wrapped directly, for test
/// construction and for building responses.
pub struct Json<T>(pub T);

impl<T> Json<T> {
    /// The contained value.
    pub fn deref(&self) -> (r: &T)
        ensures
            *r == self.0,
    {
        &self.0
    }
}

impl<T> core::convert::From<T> for Json<T> {
    fn from(data: T) -> (r: Json<T>) {
        Json(data)
    }
}

impl<T> vstd::std_specs::convert::FromSpecImpl<T> for Json<T> {
    open spec fn obeys_from_spec() -> bool {
        true
    }

    open spec fn from_spec(data: T) -> Json<T> {
        Json(data)
    }
}

/// The outcome the body pipeline owes for a given deserialization result:
/// a native failure is passed through unchanged; a value that validates is
/// delivered as is; one that does not yields its exact error set.
pub open spec fn json_outcome_matches<T: Validatable>(
    deserialized: Result<T, NativeRejection>,
    r: Result<Json<T>, JsonRejection>,
) -> bool {
    match deserialized {
        Err(native) => r matches Err(JsonRejection::Json(n)) && n == native,
        Ok(v) => if v.valid() {
            r matches Ok(j) && j.0 == v
        } else {
            r matches Err(JsonRejection::SerdeValid(e)) && e@ == v.error_set()
        },
    }
}

impl<T: Validatable> Json<T> {
    /// Run the validation stage of the pipeline on what the host framework's
    /// body deserialization handed back, and decide the outcome.
    pub fn from_request(deserialized: Result<T, NativeRejection>) -> (r: Result<
        Json<T>,
        JsonRejection,
    >)
        ensures
            json_outcome_matches(deserialized, r),
    {
        match deserialized {
            Err(native) => Err(JsonRejection::Json(native)),
            Ok(data) => {
                let checked = data.validate();
                Json::from_checked(data, checked)
            },
        }
    }
}

impl<T> Json<T> {
    /// Decide the outcome once a validation result is at hand: deliver the
    /// value on success, wrap the error set as a rejection on failure.
    pub fn from_checked(data: T, validation: Result<(), ErrorSet>) -> (r: Result<
        Json<T>,
        JsonRejection,
    >)
        ensures
            match validation {
                Ok(()) => r matches Ok(j) && j.0 == data,
                Err(e) => r matches Err(JsonRejection::SerdeValid(out)) && out == e,
            },
    {
        match validation {
            Ok(()) => Ok(Json(data)),
            Err(e) => Err(JsonRejection::SerdeValid(e)),
        }
    }
}

/// Law: a schema-valid deserialized value is always accepted, and the handler
/// receives exactly that value.
pub proof fn lemma_json_valid_input_accepted<T: Validatable>(
    v: T,
    r: Result<Json<T>, JsonRejection>,
)
    requires
        v.valid(),
        json_outcome_matches(Ok(v), r),
    ensures
        r matches Ok(j) && j.0 == v,
{
}

/// Law: when the host framework refuses the body, the pipeline's response is
/// the framework's native rendering, unchanged.
pub proof fn lemma_json_native_failure_response<T: Validatable>(
    native: NativeRejection,
    r: Result<Json<T>, JsonRejection>,
)
    requires
        json_outcome_matches(Err(native), r),
    ensures
        r matches Err(rej) && json_rejection_response(rej@) == native@,
{
}

/// Law: a deserialized value that violates its rules yields a validation
/// rejection whose response is status 422 with the value's error set
/// rendered as JSON.
pub proof fn lemma_json_validation_failure_response<T: Validatable>(
    v: T,
    r: Result<Json<T>, JsonRejection>,
)
    requires
        !v.valid(),
        json_outcome_matches(Ok(v), r),
    ensures
        r matches Err(rej) && json_rejection_response(rej@)
            == crate::response::validation_response(v.error_set()),
{
}

/// Law: extraction is deterministic — two runs over the same deserialized
/// input agree on acceptance, on the delivered value, and on the rendered
/// failure response.
pub proof fn lemma_json_extraction_deterministic<T: Validatable>(
    deserialized: Result<T, NativeRejection>,
    r1: Result<Json<T>, JsonRejection>,
    r2: Result<Json<T>, JsonRejection>,
)
    requires
        json_outcome_matches(deserialized, r1),
        json_outcome_matches(deserialized, r2),
    ensures
        r1 is Ok <==> r2 is Ok,
        match (r1, r2) {
            (Ok(a), Ok(b)) => a == b,
            (Err(a), Err(b)) => json_rejection_response(a@) == json_rejection_response(b@),
            _ => true,
        },
{
}

} // verus!
