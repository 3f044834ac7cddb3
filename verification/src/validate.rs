//! The validation capability a payload type must offer to be extracted.

use vstd::prelude::*;
use crate::error_set::{ErrorSet, ErrorSetView, wf_error_set};

verus! {

/// A payload that can be checked against its own validation rules.
///
/// `valid` and `error_set` are the mathematical statement of those rules;
/// `validate` is the runtime check, total and deterministic: the same value
/// always yields the same outcome and, on failure, the same error set.
pub trait Validatable: Sized {
    /// Whether the value satisfies every validation rule.
    spec fn valid(&self) -> bool;

    /// The error set a failed validation reports for this value.
    spec fn error_set(&self) -> ErrorSetView;

    /// A failed validation names every violated field with at least one message.
    proof fn error_set_wf(&self)
        ensures
            !self.valid() ==> wf_error_set(self.error_set());

    /// Check the value, reporting either success or its error set.
    fn validate(&self) -> (r: Result<(), ErrorSet>)
        ensures
            match r {
                Ok(()) => self.valid(),
                Err(e) => !self.valid() && e@ == self.error_set(),
            };
}

} // verus!
