//! Classification of the identity provider's responses. The transport and
//! JSON decoding live at the boundary; these functions take the status code
//! and the fields read from the body as plain values and decide, for every
//! operation, the exact success or taxonomy error the caller receives.

use vstd::prelude::*;

use crate::email::Email;
use crate::errors::{AppError, AuthError};
use crate::text::{eq_ignore_ascii_case, str_eq_ignore_ascii_case};

verus! {

/// A 2xx status.
pub open spec fn is_success(status: u16) -> bool {
    200 <= status < 300
}

fn status_is_success(status: u16) -> (r: bool)
    ensures
        r == is_success(status),
{
    200 <= status && status < 300
}

/// The display form of an HTTP status: the code followed by its canonical
/// reason phrase, as the transport library renders it.
pub uninterp spec fn status_line_of(status: u16) -> Seq<char>;

/// Relies on reqwest::StatusCode::from_u16 and its Display rendering (via
/// ToString::to_string): the code with its canonical reason phrase, such as
/// "404 Not Found"; the rendering depends on the code alone. A code outside
/// the transport library's range is rendered as its bare digits.
#[verifier::external_body]
fn status_line(status: u16) -> (r: String)
    ensures
        r@ == status_line_of(status),
{
    match reqwest::StatusCode::from_u16(status) {
        Ok(code) => code.to_string(),
        Err(_) => format!("{status}"),
    }
}

/// The fields of a provider response body that classification reads. A field
/// is `None` where the body lacks it or holds a non-string under it.
pub struct ProviderBody {
    pub msg: Option<String>,
    pub message: Option<String>,
    pub error_description: Option<String>,
    pub error: Option<String>,
    pub error_code: Option<String>,
    pub access_token: Option<String>,
}

/// The body fields an empty or unparsable payload stands for.
pub open spec fn empty_body() -> ProviderBody {
    ProviderBody {
        msg: None,
        message: None,
        error_description: None,
        error: None,
        error_code: None,
        access_token: None,
    }
}

/// A tolerated body: the parsed fields, or the empty body where parsing
/// failed.
pub open spec fn effective_body(body: Option<ProviderBody>) -> ProviderBody {
    match body {
        Some(b) => b,
        None => empty_body(),
    }
}

impl ProviderBody {
    /// An empty body, for payloads that did not parse.
    pub fn empty() -> (r: ProviderBody)
        ensures
            r == empty_body(),
    {
        ProviderBody {
            msg: None,
            message: None,
            error_description: None,
            error: None,
            error_code: None,
            access_token: None,
        }
    }

    /// The first present of `msg`, `message`, `error_description`, `error`.
    pub open spec fn spec_message_opt(self) -> Option<Seq<char>> {
        if self.msg is Some {
            Some(self.msg->0@)
        } else if self.message is Some {
            Some(self.message->0@)
        } else if self.error_description is Some {
            Some(self.error_description->0@)
        } else if self.error is Some {
            Some(self.error->0@)
        } else {
            None
        }
    }

    /// The extracted message, with the operation's fallback where no field is
    /// present.
    pub open spec fn spec_extracted(self, fallback: Seq<char>) -> Seq<char> {
        match self.spec_message_opt() {
            Some(m) => m,
            None => fallback,
        }
    }

    /// The message-extraction convention shared by every operation: fields
    /// tried in the fixed priority order, first present string wins.
    pub fn extract_message_opt(&self) -> (r: Option<String>)
        ensures
            r matches Some(m) ==> self.spec_message_opt() == Some(m@),
            r is None <==> self.spec_message_opt() is None,
    {
        if let Some(m) = &self.msg {
            Some(m.clone())
        } else if let Some(m) = &self.message {
            Some(m.clone())
        } else if let Some(m) = &self.error_description {
            Some(m.clone())
        } else if let Some(m) = &self.error {
            Some(m.clone())
        } else {
            None
        }
    }

    /// The extracted message, or the given fallback.
    pub fn extract_message(&self, fallback: &str) -> (r: String)
        ensures
            r@ == self.spec_extracted(fallback@),
    {
        match self.extract_message_opt() {
            Some(m) => m,
            None => String::from_str(fallback),
        }
    }
}

/// The identity operations that issue a remote call.
pub enum Operation {
    SignIn,
    SignUp,
    SignOut,
    DeleteUser,
    RetrieveUserId,
}

/// The error for a request that never reached the provider: the operation's
/// own error kind, carrying the transport error's text.
pub fn transport_failure(op: Operation, detail: String) -> (r: AppError)
    ensures
        op is SignIn ==> (r matches AppError::Auth(AuthError::SignInError(m)) && m@
            == "Failed to send request: "@ + detail@),
        op is SignUp ==> (r matches AppError::Auth(AuthError::SignUpError(m)) && m@
            == "Failed to send request: "@ + detail@),
        op is SignOut ==> (r matches AppError::Auth(AuthError::SignOutError(m)) && m@
            == "Failed to send request: "@ + detail@),
        op is DeleteUser ==> (r matches AppError::Auth(AuthError::DeleteUserError(m)) && m@
            == "Failed to send request: "@ + detail@),
        op is RetrieveUserId ==> (r matches AppError::Auth(AuthError::RetrieveUserIdError(m)) && m@
            == "Failed to send request: "@ + detail@),
{
    let m = String::from_str("Failed to send request: ").concat(detail.as_str());
    match op {
        Operation::SignIn => AppError::Auth(AuthError::SignInError(m)),
        Operation::SignUp => AppError::Auth(AuthError::SignUpError(m)),
        Operation::SignOut => AppError::Auth(AuthError::SignOutError(m)),
        Operation::DeleteUser => AppError::Auth(AuthError::DeleteUserError(m)),
        Operation::RetrieveUserId => AppError::Auth(AuthError::RetrieveUserIdError(m)),
    }
}

/// Classifies the sign-in response. A body that did not parse is itself a
/// failure; a success must carry the access token; any other failure carries
/// the extracted message.
pub fn signin_outcome(status: u16, body: Option<ProviderBody>) -> (r: Result<String, AppError>)
    ensures
        body is None ==> (r matches Err(AppError::Auth(AuthError::SignInError(m))) && m@
            == "Failed to parse response"@),
        body matches Some(b) ==> (!is_success(status) ==> (r matches Err(
            AppError::Auth(AuthError::SignInError(m)),
        ) && m@ == b.spec_extracted("Sign-in failed"@))),
        body matches Some(b) ==> (is_success(status) ==> ((b.access_token matches Some(t) ==> r
            == Ok::<String, AppError>(t)) && (b.access_token is None ==> (r matches Err(
            AppError::Auth(AuthError::SignInError(m)),
        ) && m@ == "No access token in response"@)))),
{
    let b = match body {
        None => {
            return Err(
                AppError::Auth(AuthError::SignInError(String::from_str("Failed to parse response"))),
            );
        },
        Some(b) => b,
    };
    if !status_is_success(status) {
        let m = b.extract_message("Sign-in failed");
        return Err(AppError::Auth(AuthError::SignInError(m)));
    }
    match b.access_token {
        Some(t) => Ok(t),
        None => Err(
            AppError::Auth(
                AuthError::SignInError(String::from_str("No access token in response")),
            ),
        ),
    }
}

/// The response says the account already exists: a conflict or
/// unprocessable status, the provider's code for it, or one of its two known
/// phrasings of the message, compared up to ASCII case.
pub open spec fn spec_existing_user(status: u16, b: ProviderBody) -> bool {
    ||| status == 409
    ||| status == 422
    ||| (b.error_code matches Some(c) && c@ == "user_already_exists"@)
    ||| (b.spec_message_opt() matches Some(m) && (eq_ignore_ascii_case(
        m,
        "User already registered"@,
    ) || eq_ignore_ascii_case(m, "Email already in use"@)))
}

/// The message of a sign-up failure that is neither a duplicate account nor
/// a plain bad request: it embeds the status and the extracted message.
pub open spec fn spec_signup_failure_message(status: u16, b: ProviderBody) -> Seq<char> {
    "Sign-up failed with status "@ + status_line_of(status) + ": "@ + b.spec_extracted(
        "Supabase signup failed"@,
    )
}

/// Classifies the sign-up response. A body that did not parse is tolerated
/// and treated as empty. Failures are layered: a duplicate account first,
/// then a bad request carrying the extracted message, then the generic
/// failure embedding status and message.
pub fn signup_outcome(status: u16, body: Option<ProviderBody>) -> (r: Result<(), AppError>)
    ensures
        is_success(status) <==> r is Ok,
        ({
            let b = effective_body(body);
            &&& (!is_success(status) && spec_existing_user(status, b)) ==> r == Err::<(), AppError>(
                AppError::Auth(AuthError::EmailAlreadyInUse),
            )
            &&& (!is_success(status) && !spec_existing_user(status, b) && status == 400) ==> (
            r matches Err(AppError::Auth(AuthError::SignUpError(m))) && m@ == b.spec_extracted(
                "Bad request"@,
            ))
            &&& (!is_success(status) && !spec_existing_user(status, b) && status != 400) ==> (
            r matches Err(AppError::Auth(AuthError::SignUpError(m))) && m@
                == spec_signup_failure_message(status, b))
        }),
{
    let b = match body {
        None => ProviderBody::empty(),
        Some(b) => b,
    };
    if status_is_success(status) {
        return Ok(());
    }
    let message_opt = b.extract_message_opt();
    let code_matches = match &b.error_code {
        Some(c) => *c == String::from_str("user_already_exists"),
        None => false,
    };
    let message_matches = match &message_opt {
        Some(m) => str_eq_ignore_ascii_case(m.as_str(), "User already registered")
            || str_eq_ignore_ascii_case(m.as_str(), "Email already in use"),
        None => false,
    };
    if status == 409 || status == 422 || code_matches || message_matches {
        return Err(AppError::Auth(AuthError::EmailAlreadyInUse));
    }
    if status == 400 {
        let m = match message_opt {
            Some(m) => m,
            None => String::from_str("Bad request"),
        };
        return Err(AppError::Auth(AuthError::SignUpError(m)));
    }
    let tail = match message_opt {
        Some(m) => m,
        None => String::from_str("Supabase signup failed"),
    };
    let m = String::from_str("Sign-up failed with status ").concat(
        status_line(status).as_str(),
    ).concat(": ").concat(tail.as_str());
    Err(AppError::Auth(AuthError::SignUpError(m)))
}

/// Classifies the sign-out response: any non-success is an
/// unauthorized-style sign-out error carrying the extracted message; an
/// unparsable body is treated as empty.
pub fn signout_outcome(status: u16, body: Option<ProviderBody>) -> (r: Result<(), AppError>)
    ensures
        is_success(status) <==> r is Ok,
        !is_success(status) ==> (r matches Err(AppError::Auth(AuthError::SignOutError(m))) && m@
            == effective_body(body).spec_extracted("Sign-out failed"@)),
{
    let b = match body {
        None => ProviderBody::empty(),
        Some(b) => b,
    };
    if status_is_success(status) {
        return Ok(());
    }
    let m = b.extract_message("Sign-out failed");
    Err(AppError::Auth(AuthError::SignOutError(m)))
}

/// The message of a failed deletion: it embeds the status and the extracted
/// message.
pub open spec fn spec_delete_failure_message(status: u16, b: ProviderBody) -> Seq<char> {
    "Failed to delete user with status "@ + status_line_of(status) + ": "@ + b.spec_extracted(
        "Delete user failed"@,
    )
}

/// Classifies the deletion response: success returns unit; on failure the
/// body must parse, and the error embeds status and extracted message.
/// Deletion failures are systemic, so the error maps to 500.
pub fn delete_user_outcome(status: u16, body: Option<ProviderBody>) -> (r: Result<(), AppError>)
    ensures
        is_success(status) <==> r is Ok,
        (!is_success(status) && body is None) ==> (r matches Err(
            AppError::Auth(AuthError::DeleteUserError(m)),
        ) && m@ == "Failed to parse response"@),
        body matches Some(b) ==> (!is_success(status) ==> (r matches Err(
            AppError::Auth(AuthError::DeleteUserError(m)),
        ) && m@ == spec_delete_failure_message(status, b))),
{
    if status_is_success(status) {
        return Ok(());
    }
    let b = match body {
        None => {
            return Err(
                AppError::Auth(
                    AuthError::DeleteUserError(String::from_str("Failed to parse response")),
                ),
            );
        },
        Some(b) => b,
    };
    let tail = b.extract_message("Delete user failed");
    let m = String::from_str("Failed to delete user with status ").concat(
        status_line(status).as_str(),
    ).concat(": ").concat(tail.as_str());
    Err(AppError::Auth(AuthError::DeleteUserError(m)))
}

} // verus!

verus! {

/// One record of the provider's user listing: the fields the lookup reads.
pub struct UserRecord {
    pub email: Option<String>,
    pub id: Option<String>,
}

/// The parsed body of the user-listing response: the message fields, and the
/// records where the body was a bare array or an object with a `users`
/// array.
pub struct RetrieveBody {
    pub fields: ProviderBody,
    pub users: Option<Vec<UserRecord>>,
}

/// The record's email equals the requested one up to ASCII case.
pub open spec fn record_matches(rec: UserRecord, email: Seq<char>) -> bool {
    rec.email matches Some(e) && eq_ignore_ascii_case(e@, email)
}

/// The index of the first record matching the email, or -1.
pub open spec fn first_match(users: Seq<UserRecord>, email: Seq<char>) -> int
    decreases users.len(),
{
    if users.len() == 0 {
        -1
    } else if record_matches(users[0], email) {
        0
    } else if first_match(users.drop_first(), email) < 0 {
        -1
    } else {
        first_match(users.drop_first(), email) + 1
    }
}

proof fn lemma_first_match_found(users: Seq<UserRecord>, email: Seq<char>, i: int)
    requires
        0 <= i < users.len(),
        record_matches(users[i], email),
        forall|j: int| 0 <= j < i ==> !record_matches(users[j], email),
    ensures
        first_match(users, email) == i,
    decreases i,
{
    if i > 0 {
        lemma_first_match_found(users.drop_first(), email, i - 1);
    }
}

proof fn lemma_first_match_none(users: Seq<UserRecord>, email: Seq<char>)
    requires
        forall|j: int| 0 <= j < users.len() ==> !record_matches(users[j], email),
    ensures
        first_match(users, email) == -1,
    decreases users.len(),
{
    if users.len() > 0 {
        lemma_first_match_none(users.drop_first(), email);
    }
}

/// Classifies the user-listing response against the requested email. The
/// body must parse and hold an array of records; among the records, only an
/// exact case-insensitive email match counts, and the first such match's id
/// is the result. No record, or no surviving record, is `UserNotFound`; a
/// surviving record without an id is a retrieval error.
#[verifier::loop_isolation(false)]
pub fn retrieve_user_id_outcome(status: u16, body: Option<RetrieveBody>, email: &Email) -> (r:
    Result<String, AppError>)
    ensures
        body is None ==> (r matches Err(AppError::Auth(AuthError::RetrieveUserIdError(m))) && m@
            == "Failed to parse response"@),
        body matches Some(b) ==> (!is_success(status) ==> (r matches Err(
            AppError::Auth(AuthError::RetrieveUserIdError(m)),
        ) && m@ == "Failed to retrieve user ID with status "@ + status_line_of(status) + ": "@
            + b.fields.spec_extracted("Retrieve user ID failed"@))),
        body matches Some(b) ==> ((is_success(status) && b.users is None) ==> (r matches Err(
            AppError::Auth(AuthError::RetrieveUserIdError(m)),
        ) && m@ == "Expected an array of users in response"@)),
        body matches Some(b) ==> (b.users matches Some(u) ==> ((is_success(status) && first_match(
            u@,
            email@,
        ) == -1) ==> r == Err::<String, AppError>(AppError::Auth(AuthError::UserNotFound)))),
        body matches Some(b) ==> (b.users matches Some(u) ==> ((is_success(status) && first_match(
            u@,
            email@,
        ) >= 0) ==> ({
            let rec = u@[first_match(u@, email@)];
            &&& (rec.id matches Some(id) ==> r == Ok::<String, AppError>(id))
            &&& (rec.id is None ==> (r matches Err(
                AppError::Auth(AuthError::RetrieveUserIdError(m)),
            ) && m@ == "User ID not found in response"@))
        }))),
{
    let b = match body {
        None => {
            return Err(
                AppError::Auth(
                    AuthError::RetrieveUserIdError(String::from_str("Failed to parse response")),
                ),
            );
        },
        Some(b) => b,
    };
    if !status_is_success(status) {
        let tail = b.fields.extract_message("Retrieve user ID failed");
        let m = String::from_str("Failed to retrieve user ID with status ").concat(
            status_line(status).as_str(),
        ).concat(": ").concat(tail.as_str());
        return Err(AppError::Auth(AuthError::RetrieveUserIdError(m)));
    }
    let users = match b.users {
        None => {
            return Err(
                AppError::Auth(
                    AuthError::RetrieveUserIdError(
                        String::from_str("Expected an array of users in response"),
                    ),
                ),
            );
        },
        Some(u) => u,
    };
    let target = email.expose_secret();
    let mut i: usize = 0;
    while i < users.len()
        invariant
            i <= users@.len(),
            target@ == email@,
            forall|j: int| 0 <= j < i ==> !record_matches(users@[j], email@),
        decreases users@.len() - i,
    {
        let rec = &users[i];
        let matched = match &rec.email {
            Some(e) => str_eq_ignore_ascii_case(e.as_str(), target),
            None => false,
        };
        if matched {
            proof {
                lemma_first_match_found(users@, email@, i as int);
            }
            return match &rec.id {
                Some(id) => Ok(id.clone()),
                None => Err(
                    AppError::Auth(
                        AuthError::RetrieveUserIdError(
                            String::from_str("User ID not found in response"),
                        ),
                    ),
                ),
            };
        }
        i += 1;
    }
    proof {
        lemma_first_match_none(users@, email@);
    }
    Err(AppError::Auth(AuthError::UserNotFound))
}

} // verus!
