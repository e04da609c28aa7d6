//! The validated password. Construction enforces the strength rules: at
//! least 8 characters, a digit, an ASCII upper-case letter, and a character
//! that is not alphanumeric. Any single failing rule rejects, always with the one
//! generic `WeakPassword` error.

use vstd::prelude::*;

use crate::errors::{AppError, ValidationError};
use crate::text::{is_ascii_digit_char, is_ascii_uppercase_char};

verus! {

/// Whether a character beyond ASCII falls in a Unicode letter or number
/// category. The table is the standard library's and is not restated here.
pub uninterp spec fn unicode_alphanumeric(c: char) -> bool;

/// The strength rule's alphanumeric test: on ASCII, definitionally the
/// digits and letters; beyond ASCII, the standard library's table.
pub open spec fn alphanumeric_char(c: char) -> bool {
    if (c as u32) < 128 {
        48 <= c as u32 <= 57 || 65 <= c as u32 <= 90 || 97 <= c as u32 <= 122
    } else {
        unicode_alphanumeric(c)
    }
}

/// Relies on char::is_alphanumeric: true exactly for characters in a Unicode
/// letter or number category; on ASCII, exactly the digits and letters,
/// which `alphanumeric_char` states definitionally.
#[verifier::external_body]
fn char_is_alphanumeric(c: char) -> (r: bool)
    ensures
        r == alphanumeric_char(c),
        (c as u32) >= 128 ==> r == unicode_alphanumeric(c),
{
    c.is_alphanumeric()
}

/// The strength rules, over the character sequence.
pub open spec fn strong_password(s: Seq<char>) -> bool {
    &&& s.len() >= 8
    &&& exists|i: int| 0 <= i < s.len() && is_ascii_digit_char(s[i])
    &&& exists|i: int| 0 <= i < s.len() && is_ascii_uppercase_char(s[i])
    &&& exists|i: int| 0 <= i < s.len() && !alphanumeric_char(s[i])
}

/// Decides `strong_password` in one pass over the characters.
pub fn is_strong_password(s: &str) -> (b: bool)
    ensures
        b == strong_password(s@),
{
    let n = s.unicode_len();
    if n < 8 {
        return false;
    }
    let mut i: usize = 0;
    let mut has_digit = false;
    let mut has_upper = false;
    let mut has_special = false;
    while i < n
        invariant
            n == s@.len(),
            i <= n,
            has_digit <==> exists|j: int| 0 <= j < i && is_ascii_digit_char(s@[j]),
            has_upper <==> exists|j: int| 0 <= j < i && is_ascii_uppercase_char(s@[j]),
            has_special <==> exists|j: int| 0 <= j < i && !alphanumeric_char(s@[j]),
        decreases n - i,
    {
        let c = s.get_char(i);
        let u = c as u32;
        if 48 <= u && u <= 57 {
            has_digit = true;
        }
        if 65 <= u && u <= 90 {
            has_upper = true;
        }
        if !char_is_alphanumeric(c) {
            has_special = true;
        }
        i += 1;
    }
    has_digit && has_upper && has_special
}

/// A validated password. Never displayed; the value is reached only through
/// `expose_secret`.
pub struct Password {
    inner: String,
}

impl View for Password {
    type V = Seq<char>;

    closed spec fn view(&self) -> Seq<char> {
        self.inner@
    }
}

impl PartialEq for Password {
    /// Equality goes by the underlying value; nothing else is revealed.
    fn eq(&self, other: &Password) -> (r: bool) {
        self.inner == other.inner
    }
}

impl vstd::std_specs::cmp::PartialEqSpecImpl for Password {
    open spec fn obeys_eq_spec() -> bool {
        true
    }

    open spec fn eq_spec(&self, other: &Password) -> bool {
        self@ == other@
    }
}

impl Eq for Password {

}

impl Password {
    #[verifier::type_invariant]
    spec fn inv(self) -> bool {
        strong_password(self.inner@)
    }

    /// The one constructor: accepts exactly the strings meeting every
    /// strength rule and rejects the rest as `WeakPassword`.
    pub fn new(password: String) -> (r: Result<Password, AppError>)
        ensures
            strong_password(password@) ==> (r matches Ok(p) && p@ == password@),
            !strong_password(password@) ==> r == Err::<Password, AppError>(
                AppError::Validation(ValidationError::WeakPassword),
            ),
    {
        if is_strong_password(password.as_str()) {
            Ok(Password { inner: password })
        } else {
            Err(AppError::Validation(ValidationError::WeakPassword))
        }
    }

    /// The explicit accessor to the underlying secret. No partially-valid
    /// value is observable: every `Password` meets the strength rules.
    pub fn expose_secret(&self) -> (r: &str)
        ensures
            r@ == self@,
            strong_password(self@),
    {
        proof {
            use_type_invariant(&*self);
        }
        self.inner.as_str()
    }
}

} // verus!
