//! The request-level layer: the payload and response shapes of the HTTP
//! surface, the fail-fast validation of credentials before any remote call,
//! and the small per-request decisions (effective redirect, request id).

use vstd::prelude::*;

use crate::email::{valid_email, Email};
use crate::errors::{AppError, ValidationError};
use crate::password::{strong_password, Password};

verus! {

pub struct SigninRequest {
    pub email: String,
    pub password: String,
}

pub struct SigninResponse {
    pub token: String,
}

pub struct SignupRequest {
    pub email: String,
    pub password: String,
    pub redirect_to: Option<String>,
}

pub struct SignupResponse {
    pub message: String,
}

pub struct SignoutRequest {
    pub token: String,
}

pub struct DeleteUserRequest {
    pub user_id: String,
}

pub struct RetrieveUserIdRequest {
    pub email: String,
}

pub struct RetrieveUserIdResponse {
    pub user_id: String,
}

/// The per-request tracing context: the request id of the error bodies.
pub struct RequestContext {
    pub request_id: String,
}

/// Validates a request's credentials before any remote call, the email
/// first: an invalid email rejects as `InvalidEmail`, then a weak password
/// as `WeakPassword`; only inputs passing both yield the validated pair.
pub fn validate_credentials(email: String, password: String) -> (r: Result<
    (Email, Password),
    AppError,
>)
    ensures
        !valid_email(email@) ==> r == Err::<(Email, Password), AppError>(
            AppError::Validation(ValidationError::InvalidEmail),
        ),
        (valid_email(email@) && !strong_password(password@)) ==> r == Err::<
            (Email, Password),
            AppError,
        >(AppError::Validation(ValidationError::WeakPassword)),
        (valid_email(email@) && strong_password(password@)) ==> (r matches Ok(pair) && pair.0@
            == email@ && pair.1@ == password@),
{
    let e = match Email::new(email) {
        Ok(e) => e,
        Err(err) => {
            return Err(err);
        },
    };
    let p = match Password::new(password) {
        Ok(p) => p,
        Err(err) => {
            return Err(err);
        },
    };
    Ok((e, p))
}

/// The redirect a signup carries to the provider: the request's own if
/// present, else the process-wide default, else none.
pub fn effective_redirect(request_redirect: Option<String>, default_redirect: Option<String>) -> (r:
    Option<String>)
    ensures
        request_redirect matches Some(x) ==> r == Some(x),
        request_redirect is None ==> r == default_redirect,
{
    match request_redirect {
        Some(x) => Some(x),
        None => default_redirect,
    }
}

/// The request id of a response: the inbound `x-request-id` header if
/// present, else the freshly generated one.
pub fn request_id_of(header: Option<String>, fresh: String) -> (r: String)
    ensures
        header matches Some(h) ==> r == h,
        header is None ==> r == fresh,
{
    match header {
        Some(h) => h,
        None => fresh,
    }
}

/// The message of a successful signup.
pub fn signup_success_message() -> (r: String)
    ensures
        r@ == "Signup successful, please check your email to confirm."@,
{
    String::from_str("Signup successful, please check your email to confirm.")
}

/// The message of a successful signout.
pub fn signout_success_message() -> (r: String)
    ensures
        r@ == "User signed out successfully"@,
{
    String::from_str("User signed out successfully")
}

/// The message of a successful deletion.
pub fn delete_user_success_message() -> (r: String)
    ensures
        r@ == "User deleted successfully"@,
{
    String::from_str("User deleted successfully")
}

} // verus!
