//! The error taxonomy: authentication and domain failures, validation
//! failures, and opaque internal failures. Values are immutable once
//! constructed and are turned into HTTP responses only by the mapper in
//! `http_response`.

use vstd::prelude::*;

verus! {

/// Failures of the identity operations and of the token guard.
#[derive(Debug)]
pub enum AuthError {
    SignInError(String),
    SignUpError(String),
    SignOutError(String),
    EmailAlreadyInUse,
    DeleteUserError(String),
    RetrieveUserIdError(String),
    UserNotFound,
    MissingToken,
    InvalidToken,
    ExpiredToken,
}

/// Failures raised at the boundary, before any remote call is attempted.
#[derive(Debug)]
pub enum ValidationError {
    InvalidEmail,
    WeakPassword,
    InvalidInput(String),
}

/// The full taxonomy. `Internal` keeps its cause for server-side diagnostics
/// only; the mapper never lets it reach a client.
#[derive(Debug)]
pub enum AppError {
    Auth(AuthError),
    Validation(ValidationError),
    Internal { detail: String },
}

impl AppError {
    /// Wraps an opaque cause as an internal failure.
    pub fn internal(detail: String) -> (r: AppError)
        ensures
            r == (AppError::Internal { detail }),
    {
        AppError::Internal { detail }
    }
}

pub type AppResult<T> = Result<T, AppError>;

} // verus!
