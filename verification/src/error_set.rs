//! The structured outcome of a failed validation pass: whole-value violation
//! messages together with a mapping from field path to that field's messages.

use vstd::prelude::*;

verus! {

/// The violation messages recorded for one field path.
pub struct PropertyErrors {
    /// The field path, as the validator names it.
    pub name: String,
    /// The human-readable messages for this field.
    pub errors: Vec<String>,
}

/// A validation error set: whole-value messages plus per-field messages.
///
/// Produced by a payload's validation operation and passed through, unchanged,
/// to the error response body.
pub struct ErrorSet {
    /// Violations of the value as a whole.
    pub errors: Vec<String>,
    /// Violations attributed to individual fields.
    pub properties: Vec<PropertyErrors>,
}

/// Mathematical model of `PropertyErrors`.
pub ghost struct PropertyErrorsView {
    pub name: Seq<char>,
    pub errors: Seq<Seq<char>>,
}

/// Mathematical model of `ErrorSet`.
pub ghost struct ErrorSetView {
    pub errors: Seq<Seq<char>>,
    pub properties: Seq<PropertyErrorsView>,
}

/// The views of a sequence of owned strings.
pub open spec fn views_of_strings(l: Seq<String>) -> Seq<Seq<char>> {
    l.map_values(|s: String| s@)
}

impl View for PropertyErrors {
    type V = PropertyErrorsView;

    open spec fn view(&self) -> PropertyErrorsView {
        PropertyErrorsView { name: self.name@, errors: views_of_strings(self.errors@) }
    }
}

impl View for ErrorSet {
    type V = ErrorSetView;

    open spec fn view(&self) -> ErrorSetView {
        ErrorSetView {
            errors: views_of_strings(self.errors@),
            properties: self.properties@.map_values(|p: PropertyErrors| p@),
        }
    }
}

/// A well-formed error set gives at least one message for every field it lists.
pub open spec fn wf_error_set(e: ErrorSetView) -> bool {
    forall|i: int| 0 <= i < e.properties.len() ==> #[trigger] e.properties[i].errors.len() > 0
}

impl ErrorSet {
    /// An error set with no violations at all.
    pub fn empty() -> (r: ErrorSet)
        ensures
            r@.errors == Seq::<Seq<char>>::empty(),
            r@.properties == Seq::<PropertyErrorsView>::empty(),
    {
        let r = ErrorSet { errors: Vec::new(), properties: Vec::new() };
        proof {
            assert(r@.errors =~= Seq::<Seq<char>>::empty());
            assert(r@.properties =~= Seq::<PropertyErrorsView>::empty());
        }
        r
    }
}

} // verus!
