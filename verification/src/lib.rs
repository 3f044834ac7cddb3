//! Validating request extractors: a typed payload is deserialized by the host
//! web framework, checked against its validation rules, and either handed to
//! the request handler or turned into a structured HTTP error response.

pub mod error_set;
pub mod extract;
pub mod json;
pub mod rejection;
pub mod render;
pub mod response;
pub mod user;
pub mod validate;

pub use error_set::ErrorSet;
pub use error_set::PropertyErrors;
pub use extract::query::Query;
pub use json::Json;
pub use rejection::Rejection;
pub use response::HttpResponse;
pub use response::NativeRejection;
pub use validate::Validatable;

use vstd::prelude::*;

verus! {

/// HTTP status for a payload that parsed but failed validation.
pub const UNPROCESSABLE_ENTITY: u16 = 422;

} // verus!
