//! The validated email address. Construction is the only way to obtain an
//! `Email`, and it succeeds exactly on strings of the accepted shape:
//! a non-empty local part, a single `@`, a domain with an inner dot, and no
//! whitespace anywhere.

use vstd::prelude::*;

use crate::errors::{AppError, ValidationError};
use crate::text::is_space_char;

verus! {

/// A domain: non-empty, holding a dot that is neither its first nor its last
/// character.
pub open spec fn valid_domain(d: Seq<char>) -> bool {
    &&& d.len() > 0
    &&& d[0] != '.'
    &&& d[d.len() - 1] != '.'
    &&& exists|j: int| 0 <= j < d.len() && d[j] == '.'
}

/// The string splits as `local@domain` at position `i`: the one `@` of the
/// string, a non-empty local part before it, a valid domain after it, and no
/// whitespace in either.
pub open spec fn email_split_at(s: Seq<char>, i: int) -> bool {
    &&& 1 <= i < s.len()
    &&& s[i] == '@'
    &&& forall|j: int| 0 <= j < s.len() && j != i ==> s[j] != '@'
    &&& forall|j: int| 0 <= j < s.len() ==> !is_space_char(s[j])
    &&& valid_domain(s.subrange(i + 1, s.len() as int))
}

/// The accepted email grammar.
pub open spec fn valid_email(s: Seq<char>) -> bool {
    exists|i: int| email_split_at(s, i)
}

/// Decides `valid_email` in two passes: one locating the `@` and any
/// whitespace, one searching the domain for a dot.
pub fn is_valid_email(s: &str) -> (b: bool)
    ensures
        b == valid_email(s@),
{
    let n = s.unicode_len();
    let mut i: usize = 0;
    let mut at_idx: usize = n;
    let mut extra_at = false;
    let mut space = false;
    while i < n
        invariant
            n == s@.len(),
            i <= n,
            at_idx <= n,
            at_idx == n ==> forall|j: int| 0 <= j < i ==> s@[j] != '@',
            at_idx < n ==> at_idx < i && s@[at_idx as int] == '@',
            at_idx < n ==> forall|j: int| 0 <= j < at_idx ==> s@[j] != '@',
            !extra_at ==> forall|j: int| 0 <= j < i && j != at_idx ==> s@[j] != '@',
            extra_at ==> at_idx < n && exists|j: int|
                0 <= j < i && j != at_idx && s@[j] == '@',
            space <==> exists|j: int| 0 <= j < i && is_space_char(s@[j]),
        decreases n - i,
    {
        let c = s.get_char(i);
        if c == '@' {
            if at_idx == n {
                at_idx = i;
            } else {
                extra_at = true;
            }
        }
        if c == ' ' || c == '\t' || c == '\n' || c == '\r' || c == '\u{b}' || c == '\u{c}' {
            space = true;
        }
        i += 1;
    }
    if at_idx == n || extra_at || space {
        return false;
    }
    if at_idx == 0 || at_idx + 1 >= n {
        return false;
    }
    if s.get_char(at_idx + 1) == '.' || s.get_char(n - 1) == '.' {
        return false;
    }
    let mut k = at_idx + 1;
    let mut has_dot = false;
    while k < n
        invariant
            n == s@.len(),
            at_idx + 1 <= k <= n,
            has_dot <==> exists|j: int| at_idx + 1 <= j < k && s@[j] == '.',
        decreases n - k,
    {
        if s.get_char(k) == '.' {
            has_dot = true;
        }
        k += 1;
    }
    if has_dot {
        proof {
            let d = s@.subrange(at_idx + 1, n as int);
            let w = choose|j: int| at_idx + 1 <= j < n && s@[j] == '.';
            assert(d[w - (at_idx + 1)] == '.');
            assert(email_split_at(s@, at_idx as int));
        }
        true
    } else {
        proof {
            if valid_email(s@) {
                let w = choose|i0: int| email_split_at(s@, i0);
                assert(w == at_idx as int);
                let d = s@.subrange(at_idx + 1, n as int);
                let j = choose|j: int| 0 <= j < d.len() && d[j] == '.';
                assert(s@[j + at_idx + 1] == '.');
            }
        }
        false
    }
}

/// A validated email address. Equality goes by the underlying value, as
/// constructed; the value is reached only through `expose_secret`.
pub struct Email {
    inner: String,
}

impl View for Email {
    type V = Seq<char>;

    closed spec fn view(&self) -> Seq<char> {
        self.inner@
    }
}

impl PartialEq for Email {
    /// Equality goes by the underlying value, case-sensitive.
    fn eq(&self, other: &Email) -> (r: bool) {
        self.inner == other.inner
    }
}

impl vstd::std_specs::cmp::PartialEqSpecImpl for Email {
    open spec fn obeys_eq_spec() -> bool {
        true
    }

    open spec fn eq_spec(&self, other: &Email) -> bool {
        self@ == other@
    }
}

impl Eq for Email {

}

impl Email {
    #[verifier::type_invariant]
    spec fn inv(self) -> bool {
        valid_email(self.inner@)
    }

    /// The one constructor: accepts exactly the strings of the email grammar
    /// and rejects the rest as `InvalidEmail`.
    pub fn new(email: String) -> (r: Result<Email, AppError>)
        ensures
            valid_email(email@) ==> (r matches Ok(e) && e@ == email@),
            !valid_email(email@) ==> r == Err::<Email, AppError>(
                AppError::Validation(ValidationError::InvalidEmail),
            ),
    {
        if is_valid_email(email.as_str()) {
            Ok(Email { inner: email })
        } else {
            Err(AppError::Validation(ValidationError::InvalidEmail))
        }
    }

    /// The explicit accessor to the underlying address. No partially-valid
    /// value is observable: every `Email` satisfies the grammar.
    pub fn expose_secret(&self) -> (r: &str)
        ensures
            r@ == self@,
            valid_email(self@),
    {
        proof {
            use_type_invariant(&*self);
        }
        self.inner.as_str()
    }
}

} // verus!
