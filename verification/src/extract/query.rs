//! The query-string extractor: the same two-stage pipeline as the body
//! extractor, reading the request's query component instead of its body.

use vstd::prelude::*;
use crate::error_set::ErrorSet;
use crate::extract::rejection::{QueryRejection, query_rejection_response};
use crate::response::NativeRejection;
use crate::validate::Validatable;

verus! {

/// A validated query-string payload.
///
/// The extraction pipeline delivers a value of this type only when validation
/// succeeded; a bare value can still be wrapped directly, for test
/// construction and for unit composition.
pub struct Query<T>(pub T);

impl<T> Query<T> {
    /// The contained value.
    pub fn deref(&self) -> (r: &T)
        ensures
            *r == self.0,
    {
        &self.0
    }
}

impl<T> core::convert::From<T> for Query<T> {
    fn from(data: T) -> (r: Query<T>) {
        Query(data)
    }
}

impl<T> vstd::std_specs::convert::FromSpecImpl<T> for Query<T> {
    open spec fn obeys_from_spec() -> bool {
        true
    }

    open spec fn from_spec(data: T) -> Query<T> {
        Query(data)
    }
}

/// The outcome the query pipeline owes for a given deserialization result:
/// a native failure is passed through unchanged; a value that validates is
/// delivered as is; one that does not yields its exact error set.
pub open spec fn query_outcome_matches<T: Validatable>(
    deserialized: Result<T, NativeRejection>,
    r: Result<Query<T>, QueryRejection>,
) -> bool {
    match deserialized {
        Err(native) => r matches Err(QueryRejection::Query(n)) && n == native,
        Ok(v) => if v.valid() {
            r matches Ok(q) && q.0 == v
        } else {
            r matches Err(QueryRejection::SerdeValid(e)) && e@ == v.error_set()
        },
    }
}

impl<T: Validatable> Query<T> {
    /// Run the validation stage of the pipeline on what the host framework's
    /// query-string deserialization handed back, and decide the outcome.
    pub fn from_request_parts(deserialized: Result<T, NativeRejection>) -> (r: Result<
        Query<T>,
        QueryRejection,
    >)
        ensures
            query_outcome_matches(deserialized, r),
    {
        match deserialized {
            Err(native) => Err(QueryRejection::Query(native)),
            Ok(data) => {
                let checked = data.validate();
                Query::from_checked(data, checked)
            },
        }
    }
}

impl<T> Query<T> {
    /// Decide the outcome once a validation result is at hand: deliver the
    /// value on success, wrap the error set as a rejection on failure.
    pub fn from_checked(data: T, validation: Result<(), ErrorSet>) -> (r: Result<
        Query<T>,
        QueryRejection,
    >)
        ensures
            match validation {
                Ok(()) => r matches Ok(q) && q.0 == data,
                Err(e) => r matches Err(QueryRejection::SerdeValid(out)) && out == e,
            },
    {
        match validation {
            Ok(()) => Ok(Query(data)),
            Err(e) => Err(QueryRejection::SerdeValid(e)),
        }
    }
}

/// Law: a schema-valid deserialized value is always accepted, and the handler
/// receives exactly that value.
pub proof fn lemma_query_valid_input_accepted<T: Validatable>(
    v: T,
    r: Result<Query<T>, QueryRejection>,
)
    requires
        v.valid(),
        query_outcome_matches(Ok(v), r),
    ensures
        r matches Ok(q) && q.0 == v,
{
}

/// Law: when the host framework refuses the query string, the pipeline's
/// response is the framework's native rendering, unchanged.
pub proof fn lemma_query_native_failure_response<T: Validatable>(
    native: NativeRejection,
    r: Result<Query<T>, QueryRejection>,
)
    requires
        query_outcome_matches(Err(native), r),
    ensures
        r matches Err(rej) && query_rejection_response(rej@) == native@,
{
}

/// Law: a deserialized value that violates its rules yields a validation
/// rejection whose response is status 422 with the value's error set
/// rendered as JSON.
pub proof fn lemma_query_validation_failure_response<T: Validatable>(
    v: T,
    r: Result<Query<T>, QueryRejection>,
)
    requires
        !v.valid(),
        query_outcome_matches(Ok(v), r),
    ensures
        r matches Err(rej) && query_rejection_response(rej@)
            == crate::response::validation_response(v.error_set()),
{
}

/// Law: extraction is deterministic — two runs over the same deserialized
/// input agree on acceptance, on the delivered value, and on the rendered
/// failure response.
pub proof fn lemma_query_extraction_deterministic<T: Validatable>(
    deserialized: Result<T, NativeRejection>,
    r1: Result<Query<T>, QueryRejection>,
    r2: Result<Query<T>, QueryRejection>,
)
    requires
        query_outcome_matches(deserialized, r1),
        query_outcome_matches(deserialized, r2),
    ensures
        r1 is Ok <==> r2 is Ok,
        match (r1, r2) {
            (Ok(a), Ok(b)) => a == b,
            (Err(a), Err(b)) => query_rejection_response(a@) == query_rejection_response(b@),
            _ => true,
        },
{
}

} // verus!
