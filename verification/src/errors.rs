//! The gateway's error taxonomy and its mapping to HTTP status codes.
use vstd::prelude::*;

verus! {

/// The errors the gateway surfaces to its callers.
#[derive(Debug)]
pub enum AppError {
    /// Missing or unknown tenant, or a tenant mismatch on a resource.
    Unauthorized,
    /// A resource or order id that does not exist.
    NotFound(String),
    /// An input that violates the validation rules.
    ValidationError(String),
    /// An upstream or internal failure.
    Internal(String),
}

/// The short description of each error.
pub open spec fn spec_app_message(e: AppError) -> Seq<char> {
    match e {
        AppError::Unauthorized => "Unauthorized: missing or invalid tenant ID"@,
        AppError::NotFound(what) => "Not found: "@ + what@,
        AppError::ValidationError(what) => "Validation error: "@ + what@,
        AppError::Internal(what) => "Internal server error: "@ + what@,
    }
}

impl AppError {
    /// The HTTP status code the error maps to.
    pub fn status_code(&self) -> (r: u16)
        ensures
            r == self.spec_status_code(),
    {
        match self {
            AppError::Unauthorized => 401,
            AppError::NotFound(_) => 404,
            AppError::ValidationError(_) => 400,
            AppError::Internal(_) => 500,
        }
    }

    /// The status code of each error kind: 401 for Unauthorized, 404 for
    /// NotFound, 400 for ValidationError, 500 for Internal.
    pub open spec fn spec_status_code(self) -> u16 {
        match self {
            AppError::Unauthorized => 401,
            AppError::NotFound(_) => 404,
            AppError::ValidationError(_) => 400,
            AppError::Internal(_) => 500,
        }
    }

    /// A short description of the error.
    pub fn message(&self) -> (r: String)
        ensures
            r@ == spec_app_message(*self),
    {
        match self {
            AppError::Unauthorized => String::from_str(
                "Unauthorized: missing or invalid tenant ID",
            ),
            AppError::NotFound(what) => String::from_str("Not found: ").concat(what.as_str()),
            AppError::ValidationError(what) => String::from_str("Validation error: ").concat(
                what.as_str(),
            ),
            AppError::Internal(what) => String::from_str("Internal server error: ").concat(
                what.as_str(),
            ),
        }
    }
}

} // verus!
