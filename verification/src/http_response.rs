//! The mapper from the error taxonomy to HTTP responses. It is the only
//! producer of error bodies: every failure yields exactly one status and one
//! `{code, message, request_id}` body, and an internal failure never carries
//! its cause to the client.

use vstd::prelude::*;

use crate::errors::{AppError, AuthError, ValidationError};

verus! {

/// The uniform error body of every failed request.
#[derive(Debug)]
pub struct ErrorBody {
    pub code: String,
    pub message: String,
    pub request_id: String,
}

/// A response of the HTTP surface, named by status.
#[derive(Debug)]
pub enum AppHttpResponse {
    Success(String),
    Created(String),
    BadRequest(ErrorBody),
    Unauthorized(ErrorBody),
    Forbidden(ErrorBody),
    NotFound(ErrorBody),
    Conflict(ErrorBody),
    InternalServerError(ErrorBody),
}

impl AppHttpResponse {
    /// The status code the variant stands for.
    pub open spec fn status(&self) -> int {
        match self {
            AppHttpResponse::Success(_) => 200,
            AppHttpResponse::Created(_) => 201,
            AppHttpResponse::BadRequest(_) => 400,
            AppHttpResponse::Unauthorized(_) => 401,
            AppHttpResponse::Forbidden(_) => 403,
            AppHttpResponse::NotFound(_) => 404,
            AppHttpResponse::Conflict(_) => 409,
            AppHttpResponse::InternalServerError(_) => 500,
        }
    }

    /// The status code, for the layer that serializes the response.
    pub fn status_code(&self) -> (s: u16)
        ensures
            s as int == self.status(),
    {
        match self {
            AppHttpResponse::Success(_) => 200,
            AppHttpResponse::Created(_) => 201,
            AppHttpResponse::BadRequest(_) => 400,
            AppHttpResponse::Unauthorized(_) => 401,
            AppHttpResponse::Forbidden(_) => 403,
            AppHttpResponse::NotFound(_) => 404,
            AppHttpResponse::Conflict(_) => 409,
            AppHttpResponse::InternalServerError(_) => 500,
        }
    }

    /// The error body, where the response carries one.
    pub open spec fn error_body(&self) -> Option<ErrorBody> {
        match self {
            AppHttpResponse::Success(_) => None,
            AppHttpResponse::Created(_) => None,
            AppHttpResponse::BadRequest(b) => Some(*b),
            AppHttpResponse::Unauthorized(b) => Some(*b),
            AppHttpResponse::Forbidden(b) => Some(*b),
            AppHttpResponse::NotFound(b) => Some(*b),
            AppHttpResponse::Conflict(b) => Some(*b),
            AppHttpResponse::InternalServerError(b) => Some(*b),
        }
    }
}

/// The status each error maps to.
pub open spec fn spec_status_of(e: AppError) -> int {
    match e {
        AppError::Auth(a) => match a {
            AuthError::SignInError(_) => 401,
            AuthError::SignUpError(_) => 400,
            AuthError::SignOutError(_) => 401,
            AuthError::EmailAlreadyInUse => 409,
            AuthError::DeleteUserError(_) => 500,
            AuthError::RetrieveUserIdError(_) => 500,
            AuthError::UserNotFound => 404,
            AuthError::MissingToken => 401,
            AuthError::InvalidToken => 401,
            AuthError::ExpiredToken => 401,
        },
        AppError::Validation(_) => 400,
        AppError::Internal { .. } => 500,
    }
}

/// The machine-readable code each error maps to.
pub open spec fn spec_code_of(e: AppError) -> Seq<char> {
    match e {
        AppError::Auth(a) => match a {
            AuthError::SignInError(_) => "sign_in_error"@,
            AuthError::SignUpError(_) => "sign_up_error"@,
            AuthError::SignOutError(_) => "sign_out_error"@,
            AuthError::EmailAlreadyInUse => "email_already_in_use"@,
            AuthError::DeleteUserError(_) => "delete_user_error"@,
            AuthError::RetrieveUserIdError(_) => "retrieve_user_id_error"@,
            AuthError::UserNotFound => "user_not_found"@,
            AuthError::MissingToken => "missing_token"@,
            AuthError::InvalidToken => "invalid_token"@,
            AuthError::ExpiredToken => "expired_token"@,
        },
        AppError::Validation(v) => match v {
            ValidationError::InvalidEmail => "invalid_email"@,
            ValidationError::WeakPassword => "weak_password"@,
            ValidationError::InvalidInput(_) => "invalid_input"@,
        },
        AppError::Internal { .. } => "internal_server_error"@,
    }
}

/// The human-readable message each error maps to. An error that carries a
/// message keeps it; an internal failure is always replaced with the fixed
/// generic message.
pub open spec fn spec_message_of(e: AppError) -> Seq<char> {
    match e {
        AppError::Auth(a) => match a {
            AuthError::SignInError(m) => m@,
            AuthError::SignUpError(m) => m@,
            AuthError::SignOutError(m) => m@,
            AuthError::EmailAlreadyInUse => "Email already in use"@,
            AuthError::DeleteUserError(m) => m@,
            AuthError::RetrieveUserIdError(m) => m@,
            AuthError::UserNotFound => "User not found"@,
            AuthError::MissingToken => "Missing token"@,
            AuthError::InvalidToken => "Invalid token"@,
            AuthError::ExpiredToken => "Token expired"@,
        },
        AppError::Validation(v) => match v {
            ValidationError::InvalidEmail => "Invalid email format"@,
            ValidationError::WeakPassword => "Password does not meet complexity requirements"@,
            ValidationError::InvalidInput(m) => "Invalid input: "@ + m@,
        },
        AppError::Internal { .. } => "An internal server error occurred"@,
    }
}

impl AppHttpResponse {
    fn body(code: &str, message: &str, request_id: &str) -> (r: ErrorBody)
        ensures
            r.code@ == code@,
            r.message@ == message@,
            r.request_id@ == request_id@,
    {
        ErrorBody {
            code: String::from_str(code),
            message: String::from_str(message),
            request_id: String::from_str(request_id),
        }
    }

    /// The total mapping from an error and a request id to the response:
    /// status, code and message follow the taxonomy's table, and the body
    /// carries the request id unchanged.
    pub fn from_app_error(error: AppError, request_id: &str) -> (r: AppHttpResponse)
        ensures
            r.status() == spec_status_of(error),
            (r.error_body() matches Some(b) && b.code@ == spec_code_of(error) && b.message@
                == spec_message_of(error) && b.request_id@ == request_id@),
    {
        match error {
            AppError::Auth(a) => match a {
                AuthError::SignInError(m) => AppHttpResponse::Unauthorized(
                    Self::body("sign_in_error", m.as_str(), request_id),
                ),
                AuthError::SignUpError(m) => AppHttpResponse::BadRequest(
                    Self::body("sign_up_error", m.as_str(), request_id),
                ),
                AuthError::SignOutError(m) => AppHttpResponse::Unauthorized(
                    Self::body("sign_out_error", m.as_str(), request_id),
                ),
                AuthError::EmailAlreadyInUse => AppHttpResponse::Conflict(
                    Self::body("email_already_in_use", "Email already in use", request_id),
                ),
                AuthError::DeleteUserError(m) => AppHttpResponse::InternalServerError(
                    Self::body("delete_user_error", m.as_str(), request_id),
                ),
                AuthError::RetrieveUserIdError(m) => AppHttpResponse::InternalServerError(
                    Self::body("retrieve_user_id_error", m.as_str(), request_id),
                ),
                AuthError::UserNotFound => AppHttpResponse::NotFound(
                    Self::body("user_not_found", "User not found", request_id),
                ),
                AuthError::MissingToken => AppHttpResponse::Unauthorized(
                    Self::body("missing_token", "Missing token", request_id),
                ),
                AuthError::InvalidToken => AppHttpResponse::Unauthorized(
                    Self::body("invalid_token", "Invalid token", request_id),
                ),
                AuthError::ExpiredToken => AppHttpResponse::Unauthorized(
                    Self::body("expired_token", "Token expired", request_id),
                ),
            },
            AppError::Validation(v) => match v {
                ValidationError::InvalidEmail => AppHttpResponse::BadRequest(
                    Self::body("invalid_email", "Invalid email format", request_id),
                ),
                ValidationError::WeakPassword => AppHttpResponse::BadRequest(
                    Self::body(
                        "weak_password",
                        "Password does not meet complexity requirements",
                        request_id,
                    ),
                ),
                ValidationError::InvalidInput(m) => {
                    let message = String::from_str("Invalid input: ").concat(m.as_str());
                    AppHttpResponse::BadRequest(
                        Self::body("invalid_input", message.as_str(), request_id),
                    )
                },
            },
            AppError::Internal { .. } => AppHttpResponse::InternalServerError(
                Self::body(
                    "internal_server_error",
                    "An internal server error occurred",
                    request_id,
                ),
            ),
        }
    }
}

/// A missing header, a tampered or malformed token, and an expired token are
/// indistinguishable at the boundary: each of the guard's failures maps to
/// HTTP 401.
pub proof fn lemma_token_failures_unauthorized(e: AuthError)
    requires
        e is MissingToken || e is InvalidToken || e is ExpiredToken,
    ensures
        spec_status_of(AppError::Auth(e)) == 401,
{
}

/// A duplicate signup is rejected as a conflict: `EmailAlreadyInUse` maps to
/// HTTP 409 with the code `email_already_in_use`.
pub proof fn lemma_duplicate_email_conflict()
    ensures
        spec_status_of(AppError::Auth(AuthError::EmailAlreadyInUse)) == 409,
        spec_code_of(AppError::Auth(AuthError::EmailAlreadyInUse)) == "email_already_in_use"@,
{
}

/// Every validation failure is client-correctable: it maps to HTTP 400,
/// raised before any remote call is attempted.
pub proof fn lemma_validation_failures_bad_request(v: ValidationError)
    ensures
        spec_status_of(AppError::Validation(v)) == 400,
{
}

/// An internal failure reaches the client with the fixed generic message,
/// whatever its recorded cause.
pub proof fn lemma_internal_cause_never_leaks(detail: String)
    ensures
        spec_message_of(AppError::Internal { detail }) == "An internal server error occurred"@,
        spec_code_of(AppError::Internal { detail }) == "internal_server_error"@,
        spec_status_of(AppError::Internal { detail }) == 500,
{
}

} // verus!
