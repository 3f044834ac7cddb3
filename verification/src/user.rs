//! A minimal payload type implementing `Validatable`: one `name` field whose
//! length may be at most three characters. It is the library's reference
//! implementation of the trait and the payload its own tests extract.

use vstd::prelude::*;
use crate::error_set::{ErrorSet, ErrorSetView, PropertyErrors, PropertyErrorsView};
use crate::validate::Validatable;

verus! {

/// The greatest number of characters `User::name` may have.
pub const USER_NAME_MAX_LENGTH: usize = 3;

/// A payload with a single bounded-length `name` field.
pub struct User {
    /// The user's name, valid when at most three characters long.
    pub name: String,
}

/// The message reported when `name` is too long, word for word as the
/// validation capability phrases a failed maximum-length rule.
pub open spec fn user_name_message() -> Seq<char> {
    "The length of the value must be `<= 3`."@
}

impl Validatable for User {
    open spec fn valid(&self) -> bool {
        self.name@.len() <= USER_NAME_MAX_LENGTH
    }

    open spec fn error_set(&self) -> ErrorSetView {
        ErrorSetView {
            errors: Seq::empty(),
            properties: seq![
                PropertyErrorsView { name: "name"@, errors: seq![user_name_message()] },
            ],
        }
    }

    proof fn error_set_wf(&self) {
    }

    fn validate(&self) -> (r: Result<(), ErrorSet>) {
        if self.name.as_str().unicode_len() <= USER_NAME_MAX_LENGTH {
            Ok(())
        } else {
            let mut messages: Vec<String> = Vec::new();
            messages.push(String::from_str("The length of the value must be `<= 3`."));
            let mut properties: Vec<PropertyErrors> = Vec::new();
            properties.push(PropertyErrors { name: String::from_str("name"), errors: messages });
            let set = ErrorSet { errors: Vec::new(), properties };
            proof {
                assert(set@.errors =~= self.error_set().errors);
                assert(set@.properties[0].errors =~= self.error_set().properties[0].errors);
                assert(set@.properties =~= self.error_set().properties);
                assert(set@ == self.error_set());
            }
            Err(set)
        }
    }
}

} // verus!
