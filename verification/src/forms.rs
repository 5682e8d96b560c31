//! Input models: the form bodies of the create and rename endpoints, and
//! the length validation that runs on them before a handler acts.

use vstd::prelude::*;
use vstd::string::StrSliceExecFns;
use vstd::string::StringExecFns;
use crate::error::AppError;

verus! {

/// The fewest characters a description may have.
pub const MIN_DESCRIPTION_CHARS: usize = 1;

/// The most characters a description may have.
pub const MAX_DESCRIPTION_CHARS: usize = 25;

/// A description is acceptable when it is between 1 and 25 characters long.
pub open spec fn valid_description(description: Seq<char>) -> bool {
    MIN_DESCRIPTION_CHARS <= description.len() <= MAX_DESCRIPTION_CHARS
}

/// Checks the length constraint on a description.
pub fn description_is_valid(description: &str) -> (ok: bool)
    ensures
        ok == valid_description(description@),
{
    let len = description.unicode_len();
    MIN_DESCRIPTION_CHARS <= len && len <= MAX_DESCRIPTION_CHARS
}

/// A form whose fields can be checked against their constraints before a
/// handler runs.
pub trait Validate: Sized {
    /// Whether every field meets its constraint.
    spec fn valid(&self) -> bool;

    /// Checks the fields; on failure the error carries a field-level
    /// message and maps to a client-error status.
    fn validate(&self) -> (r: Result<(), AppError>)
        ensures
            r is Ok <==> self.valid(),
            r matches Err(e) ==> e is Validation,
    ;
}

/// The form body of `POST /`: the description of the todo to create.
pub struct NewTodo {
    pub description: String,
}

impl Validate for NewTodo {
    open spec fn valid(&self) -> bool {
        valid_description(self.description@)
    }

    fn validate(&self) -> (r: Result<(), AppError>) {
        if description_is_valid(self.description.as_str()) {
            Ok(())
        } else {
            Err(
                AppError::Validation(
                    String::from_str("description must be between 1 and 25 characters long"),
                ),
            )
        }
    }
}

/// The form body of `POST /rename/{id}`: the new description.
pub struct RenameTodo {
    pub description: String,
}

impl Validate for RenameTodo {
    open spec fn valid(&self) -> bool {
        valid_description(self.description@)
    }

    fn validate(&self) -> (r: Result<(), AppError>) {
        if description_is_valid(self.description.as_str()) {
            Ok(())
        } else {
            Err(
                AppError::Validation(
                    String::from_str("description must be between 1 and 25 characters long"),
                ),
            )
        }
    }
}

/// A parsed form that has passed validation. Request intake is two steps:
/// parse the body into the shape, then check the fields; only the check
/// lives here, the parse belongs to the router.
pub struct ValidatedForm<T>(pub T);

impl<T: Validate> ValidatedForm<T> {
    /// Runs field validation on a parsed form.
    pub fn from_parsed(value: T) -> (r: Result<ValidatedForm<T>, AppError>)
        ensures
            value.valid() ==> (r matches Ok(form) && form.0 == value),
            !value.valid() ==> (r matches Err(e) && e is Validation),
    {
        match value.validate() {
            Ok(()) => Ok(ValidatedForm(value)),
            Err(e) => Err(e),
        }
    }
}

} // verus!
