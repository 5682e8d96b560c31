//! The error mapper: a closed set of failure kinds, each carrying a
//! human-readable message, mapped to an HTTP status code.

use vstd::prelude::*;

verus! {

/// A failure raised somewhere in a request's call chain. Each variant
/// carries the message of the underlying failure.
///
/// - `Sqlx`: the relational store was unreachable or a statement failed.
/// - `Validation`: a form field failed the length constraint.
/// - `FormRejection`: the request body could not be parsed into the
///   expected shape.
/// - `Askama`: rendering the view failed.
#[derive(Debug)]
pub enum AppError {
    Sqlx(String),
    Validation(String),
    FormRejection(String),
    Askama(String),
}

impl AppError {
    /// The HTTP status code each failure kind maps to: data-access and
    /// render failures are server errors (500), validation and
    /// malformed-request failures are client errors (400).
    pub open spec fn spec_status_code(&self) -> u16 {
        match self {
            AppError::Sqlx(_) => 500,
            AppError::Validation(_) => 400,
            AppError::FormRejection(_) => 400,
            AppError::Askama(_) => 500,
        }
    }

    /// The message carried by the failure.
    pub open spec fn spec_message(&self) -> Seq<char> {
        match self {
            AppError::Sqlx(m) => m@,
            AppError::Validation(m) => m@,
            AppError::FormRejection(m) => m@,
            AppError::Askama(m) => m@,
        }
    }

    pub fn status_code(&self) -> (code: u16)
        ensures
            code == self.spec_status_code(),
    {
        match self {
            AppError::Sqlx(_) => 500,
            AppError::Validation(_) => 400,
            AppError::FormRejection(_) => 400,
            AppError::Askama(_) => 500,
        }
    }

    pub fn message(&self) -> (msg: &String)
        ensures
            msg@ == self.spec_message(),
    {
        match self {
            AppError::Sqlx(m) => m,
            AppError::Validation(m) => m,
            AppError::FormRejection(m) => m,
            AppError::Askama(m) => m,
        }
    }

    /// The plain-text HTTP response a failure turns into: its status code
    /// and its message, with no structured payload.
    pub fn into_response(self) -> (r: (u16, String))
        ensures
            r.0 == self.spec_status_code(),
            r.1@ == self.spec_message(),
    {
        let code = self.status_code();
        let msg = match self {
            AppError::Sqlx(m) => m,
            AppError::Validation(m) => m,
            AppError::FormRejection(m) => m,
            AppError::Askama(m) => m,
        };
        (code, msg)
    }
}

} // verus!
