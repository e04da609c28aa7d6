//! The bearer-token guard. It extracts the token from the `Authorization`
//! header, has the signature and expiry checked by the JWT library, and maps
//! every outcome into the error taxonomy: a missing or malformed header is
//! `MissingToken`, a rejected token `InvalidToken` or `ExpiredToken`, a
//! verified one an `AuthenticatedUser` carrying the token's subject.

use vstd::prelude::*;

use crate::errors::{AppError, AuthError};

verus! {

/// The authenticated caller of one request: the token's subject and the raw
/// token it arrived with.
#[derive(Debug)]
pub struct AuthenticatedUser {
    pub user_id: String,
    pub token: String,
}

/// Why the verifier rejected a presented token.
#[derive(Debug)]
pub enum TokenRejection {
    Expired,
    Invalid,
}

/// Relies on jsonwebtoken::decode over DecodingKey::from_base64_secret,
/// falling back to DecodingKey::from_secret on the raw bytes, with HS256
/// validation that checks the signature and the `exp` claim and skips the
/// audience claim. Returns the `sub` claim on success; rejection is
/// `Expired` exactly for an expired signature, else `Invalid` (a missing
/// `sub` included). The outcome depends on the clock, so nothing more is
/// stated of it.
#[verifier::external_body]
fn verify_hs256_token(token: &str, secret: &str) -> (r: Result<String, TokenRejection>) {
    let key = jsonwebtoken::DecodingKey::from_base64_secret(secret)
        .unwrap_or_else(|_| jsonwebtoken::DecodingKey::from_secret(secret.as_bytes()));
    let mut validation = jsonwebtoken::Validation::new(jsonwebtoken::Algorithm::HS256);
    validation.validate_aud = false;
    match jsonwebtoken::decode::<serde_json::Value>(token, &key, &validation) {
        Ok(data) => match data.claims.get("sub").and_then(|v| v.as_str()) {
            Some(sub) => Ok(sub.to_string()),
            None => Err(TokenRejection::Invalid),
        },
        Err(e) => match e.kind() {
            jsonwebtoken::errors::ErrorKind::ExpiredSignature => Err(TokenRejection::Expired),
            _ => Err(TokenRejection::Invalid),
        },
    }
}

/// The header value carries a bearer token: `Bearer ` followed by the token,
/// which may be empty.
pub open spec fn has_bearer_prefix(h: Seq<char>) -> bool {
    h.len() >= 7 && h.subrange(0, 7) == "Bearer "@
}

/// The token carried by an `Authorization` header value of the bearer form.
pub open spec fn spec_bearer_token(h: Seq<char>) -> Seq<char> {
    h.subrange(7, h.len() as int)
}

/// Strips the `Bearer ` prefix from a header value, if it has one.
pub fn bearer_token_of(header: &str) -> (r: Option<String>)
    ensures
        has_bearer_prefix(header@) ==> (r matches Some(t) && t@ == spec_bearer_token(header@)),
        !has_bearer_prefix(header@) ==> r is None,
{
    let n = header.unicode_len();
    proof {
        reveal_strlit("Bearer ");
    }
    if n < 7 {
        return None;
    }
    if !(header.get_char(0) == 'B' && header.get_char(1) == 'e' && header.get_char(2) == 'a'
        && header.get_char(3) == 'r' && header.get_char(4) == 'e' && header.get_char(5) == 'r'
        && header.get_char(6) == ' ') {
        proof {
            if has_bearer_prefix(header@) {
                assert(header@.subrange(0, 7)[0] == header@[0]);
                assert(header@.subrange(0, 7)[1] == header@[1]);
                assert(header@.subrange(0, 7)[2] == header@[2]);
                assert(header@.subrange(0, 7)[3] == header@[3]);
                assert(header@.subrange(0, 7)[4] == header@[4]);
                assert(header@.subrange(0, 7)[5] == header@[5]);
                assert(header@.subrange(0, 7)[6] == header@[6]);
            }
        }
        return None;
    }
    proof {
        assert(header@.subrange(0, 7) =~= "Bearer "@);
    }
    let token = header.substring_char(7, n);
    Some(String::from_str(token))
}

/// Maps the verifier's outcome to the request's result: a subject becomes an
/// `AuthenticatedUser` holding the presented token, a rejection the matching
/// taxonomy error.
pub fn guard_outcome(verification: Result<String, TokenRejection>, token: String) -> (r: Result<
    AuthenticatedUser,
    AppError,
>)
    ensures
        (verification matches Ok(sub) ==> (r matches Ok(u) && u.user_id == sub && u.token
            == token)),
        verification matches Err(TokenRejection::Expired) ==> r == Err::<
            AuthenticatedUser,
            AppError,
        >(AppError::Auth(AuthError::ExpiredToken)),
        verification matches Err(TokenRejection::Invalid) ==> r == Err::<
            AuthenticatedUser,
            AppError,
        >(AppError::Auth(AuthError::InvalidToken)),
{
    match verification {
        Ok(sub) => Ok(AuthenticatedUser { user_id: sub, token }),
        Err(TokenRejection::Expired) => Err(AppError::Auth(AuthError::ExpiredToken)),
        Err(TokenRejection::Invalid) => Err(AppError::Auth(AuthError::InvalidToken)),
    }
}

/// The guard: a missing header or one without the bearer form fails as
/// `MissingToken` before any verification; otherwise the token is verified
/// against the shared secret, and the caller receives either the
/// authenticated user carrying that token or `InvalidToken` / `ExpiredToken`.
pub fn authenticate(header: Option<&str>, secret: &str) -> (r: Result<AuthenticatedUser, AppError>)
    ensures
        header matches Some(h) ==> (has_bearer_prefix(h@) ==> ((r matches Ok(u) ==> u.token@
            == spec_bearer_token(h@)) && (r matches Err(e) ==> e == AppError::Auth(
            AuthError::InvalidToken,
        ) || e == AppError::Auth(AuthError::ExpiredToken)))),
        header matches Some(h) ==> (!has_bearer_prefix(h@) ==> r == Err::<
            AuthenticatedUser,
            AppError,
        >(AppError::Auth(AuthError::MissingToken))),
        header is None ==> r == Err::<AuthenticatedUser, AppError>(
            AppError::Auth(AuthError::MissingToken),
        ),
{
    match header {
        None => Err(AppError::Auth(AuthError::MissingToken)),
        Some(h) => match bearer_token_of(h) {
            None => Err(AppError::Auth(AuthError::MissingToken)),
            Some(token) => {
                let verification = verify_hs256_token(token.as_str(), secret);
                guard_outcome(verification, token)
            },
        },
    }
}

} // verus!
