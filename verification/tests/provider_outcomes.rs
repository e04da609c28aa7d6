use sovaehr::errors::{AppError, AuthError};
use sovaehr::handlers::{DeleteUserRequest, SigninResponse, SignoutRequest, SignupResponse};
use sovaehr::provider::{
    delete_user_outcome, signin_outcome, signout_outcome, signup_outcome, transport_failure,
    Operation, ProviderBody,
};

fn body(
    msg: Option<&str>,
    message: Option<&str>,
    error_description: Option<&str>,
    error: Option<&str>,
    error_code: Option<&str>,
    access_token: Option<&str>,
) -> ProviderBody {
    ProviderBody {
        msg: msg.map(|s| s.to_string()),
        message: message.map(|s| s.to_string()),
        error_description: error_description.map(|s| s.to_string()),
        error: error.map(|s| s.to_string()),
        error_code: error_code.map(|s| s.to_string()),
        access_token: access_token.map(|s| s.to_string()),
    }
}

#[test]
fn message_extraction_follows_priority_order() {
    let b = body(Some("m1"), Some("m2"), Some("m3"), Some("m4"), None, None);
    assert_eq!(b.extract_message("fb"), "m1");
    let b = body(None, Some("m2"), Some("m3"), Some("m4"), None, None);
    assert_eq!(b.extract_message("fb"), "m2");
    let b = body(None, None, Some("m3"), Some("m4"), None, None);
    assert_eq!(b.extract_message("fb"), "m3");
    let b = body(None, None, None, Some("m4"), None, None);
    assert_eq!(b.extract_message("fb"), "m4");
    let b = body(None, None, None, None, None, None);
    assert_eq!(b.extract_message("fb"), "fb");
}

#[test]
fn signin_success_returns_token() {
    let b = body(None, None, None, None, None, Some("tok-1"));
    let response = SigninResponse {
        token: signin_outcome(200, Some(b)).unwrap(),
    };
    assert_eq!(response.token, "tok-1");
}

#[test]
fn signin_success_without_token_fails() {
    let b = body(None, None, None, None, None, None);
    match signin_outcome(200, Some(b)) {
        Err(AppError::Auth(AuthError::SignInError(m))) => {
            assert_eq!(m, "No access token in response");
        }
        _ => panic!("expected SignInError"),
    }
}

#[test]
fn signin_failure_carries_extracted_message() {
    let b = body(None, None, Some("Email not confirmed"), None, None, None);
    match signin_outcome(400, Some(b)) {
        Err(AppError::Auth(AuthError::SignInError(m))) => {
            assert_eq!(m, "Email not confirmed");
        }
        _ => panic!("expected SignInError"),
    }
}

#[test]
fn signin_failure_without_message_uses_fallback() {
    let b = body(None, None, None, None, None, None);
    match signin_outcome(500, Some(b)) {
        Err(AppError::Auth(AuthError::SignInError(m))) => {
            assert_eq!(m, "Sign-in failed");
        }
        _ => panic!("expected SignInError"),
    }
}

#[test]
fn signin_unparsable_body_fails() {
    match signin_outcome(200, None) {
        Err(AppError::Auth(AuthError::SignInError(m))) => {
            assert_eq!(m, "Failed to parse response");
        }
        _ => panic!("expected SignInError"),
    }
}

#[test]
fn signup_success_is_unit() {
    assert!(signup_outcome(200, None).is_ok());
    let b = body(Some("ok"), None, None, None, None, None);
    assert!(signup_outcome(201, Some(b)).is_ok());
    let response = SignupResponse {
        message: "Signup successful, please check your email to confirm.".to_string(),
    };
    assert!(!response.message.is_empty());
}

#[test]
fn signup_conflict_statuses_mean_email_in_use() {
    for status in [409u16, 422u16] {
        let b = body(None, None, None, None, None, None);
        match signup_outcome(status, Some(b)) {
            Err(AppError::Auth(AuthError::EmailAlreadyInUse)) => {}
            _ => panic!("expected EmailAlreadyInUse for {status}"),
        }
    }
}

#[test]
fn signup_known_error_code_means_email_in_use() {
    let b = body(None, None, None, None, Some("user_already_exists"), None);
    match signup_outcome(500, Some(b)) {
        Err(AppError::Auth(AuthError::EmailAlreadyInUse)) => {}
        _ => panic!("expected EmailAlreadyInUse"),
    }
}

#[test]
fn signup_known_messages_mean_email_in_use_case_insensitively() {
    for m in ["User already registered", "USER ALREADY REGISTERED", "email already in use"] {
        let b = body(Some(m), None, None, None, None, None);
        match signup_outcome(500, Some(b)) {
            Err(AppError::Auth(AuthError::EmailAlreadyInUse)) => {}
            _ => panic!("expected EmailAlreadyInUse for {m}"),
        }
    }
}

#[test]
fn signup_bad_request_carries_message() {
    let b = body(Some("password too long"), None, None, None, None, None);
    match signup_outcome(400, Some(b)) {
        Err(AppError::Auth(AuthError::SignUpError(m))) => {
            assert_eq!(m, "password too long");
        }
        _ => panic!("expected SignUpError"),
    }
}

#[test]
fn signup_bad_request_without_message_uses_fallback() {
    match signup_outcome(400, None) {
        Err(AppError::Auth(AuthError::SignUpError(m))) => {
            assert_eq!(m, "Bad request");
        }
        _ => panic!("expected SignUpError"),
    }
}

#[test]
fn signup_other_failure_embeds_status_and_message() {
    let b = body(None, Some("service down"), None, None, None, None);
    match signup_outcome(503, Some(b)) {
        Err(AppError::Auth(AuthError::SignUpError(m))) => {
            assert_eq!(m, "Sign-up failed with status 503 Service Unavailable: service down");
        }
        _ => panic!("expected SignUpError"),
    }
}

#[test]
fn signup_other_failure_without_message_uses_fallback() {
    match signup_outcome(500, None) {
        Err(AppError::Auth(AuthError::SignUpError(m))) => {
            assert_eq!(
                m,
                "Sign-up failed with status 500 Internal Server Error: Supabase signup failed"
            );
        }
        _ => panic!("expected SignUpError"),
    }
}

#[test]
fn signout_success_is_unit() {
    let req = SignoutRequest {
        token: "tok-1".to_string(),
    };
    assert!(!req.token.is_empty());
    assert!(signout_outcome(204, None).is_ok());
}

#[test]
fn signout_failure_carries_extracted_message() {
    let b = body(Some("bad session"), None, None, None, None, None);
    match signout_outcome(401, Some(b)) {
        Err(AppError::Auth(AuthError::SignOutError(m))) => {
            assert_eq!(m, "bad session");
        }
        _ => panic!("expected SignOutError"),
    }
    match signout_outcome(401, None) {
        Err(AppError::Auth(AuthError::SignOutError(m))) => {
            assert_eq!(m, "Sign-out failed");
        }
        _ => panic!("expected SignOutError"),
    }
}

#[test]
fn delete_success_is_unit() {
    let req = DeleteUserRequest {
        user_id: "id-1".to_string(),
    };
    assert!(!req.user_id.is_empty());
    assert!(delete_user_outcome(200, None).is_ok());
}

#[test]
fn delete_failure_embeds_status_and_message() {
    let b = body(Some("User not allowed"), None, None, None, None, None);
    match delete_user_outcome(403, Some(b)) {
        Err(AppError::Auth(AuthError::DeleteUserError(m))) => {
            assert_eq!(m, "Failed to delete user with status 403 Forbidden: User not allowed");
        }
        _ => panic!("expected DeleteUserError"),
    }
}

#[test]
fn delete_failure_with_unparsable_body() {
    match delete_user_outcome(500, None) {
        Err(AppError::Auth(AuthError::DeleteUserError(m))) => {
            assert_eq!(m, "Failed to parse response");
        }
        _ => panic!("expected DeleteUserError"),
    }
}

#[test]
fn transport_failures_pick_operation_error() {
    let detail = || "connection refused".to_string();
    let expected = "Failed to send request: connection refused";
    match transport_failure(Operation::SignIn, detail()) {
        AppError::Auth(AuthError::SignInError(m)) => assert_eq!(m, expected),
        _ => panic!("expected SignInError"),
    }
    match transport_failure(Operation::SignUp, detail()) {
        AppError::Auth(AuthError::SignUpError(m)) => assert_eq!(m, expected),
        _ => panic!("expected SignUpError"),
    }
    match transport_failure(Operation::SignOut, detail()) {
        AppError::Auth(AuthError::SignOutError(m)) => assert_eq!(m, expected),
        _ => panic!("expected SignOutError"),
    }
    match transport_failure(Operation::DeleteUser, detail()) {
        AppError::Auth(AuthError::DeleteUserError(m)) => assert_eq!(m, expected),
        _ => panic!("expected DeleteUserError"),
    }
    match transport_failure(Operation::RetrieveUserId, detail()) {
        AppError::Auth(AuthError::RetrieveUserIdError(m)) => assert_eq!(m, expected),
        _ => panic!("expected RetrieveUserIdError"),
    }
}
