//! Character-level helpers shared by the validated value types and the
//! response classifiers: ASCII character classes and case-insensitive
//! string comparison.

use vstd::prelude::*;

verus! {

/// ASCII whitespace, the characters an email address may not contain.
pub open spec fn is_space_char(c: char) -> bool {
    c == ' ' || c == '\t' || c == '\n' || c == '\r' || c == '\u{b}' || c == '\u{c}'
}

pub open spec fn is_ascii_digit_char(c: char) -> bool {
    48 <= c as u32 <= 57
}

pub open spec fn is_ascii_uppercase_char(c: char) -> bool {
    65 <= c as u32 <= 90
}

/// The scalar value of `c`, with an ASCII upper-case letter folded to lower
/// case. Non-ASCII characters are left untouched.
pub open spec fn lower_scalar(c: char) -> u32 {
    if 65 <= c as u32 <= 90 {
        (c as u32 + 32) as u32
    } else {
        c as u32
    }
}

/// Equality of character sequences up to ASCII case.
pub open spec fn eq_ignore_ascii_case(a: Seq<char>, b: Seq<char>) -> bool {
    a.len() == b.len() && (forall|i: int|
        0 <= i < a.len() ==> lower_scalar(a[i]) == lower_scalar(b[i]))
}

/// Compares two strings up to ASCII case, character by character.
pub fn str_eq_ignore_ascii_case(a: &str, b: &str) -> (r: bool)
    ensures
        r == eq_ignore_ascii_case(a@, b@),
{
    let na = a.unicode_len();
    let nb = b.unicode_len();
    if na != nb {
        return false;
    }
    let mut i: usize = 0;
    while i < na
        invariant
            na == a@.len(),
            na == b@.len(),
            i <= na,
            forall|j: int| 0 <= j < i ==> lower_scalar(a@[j]) == lower_scalar(b@[j]),
        decreases na - i,
    {
        let ca = a.get_char(i) as u32;
        let cb = b.get_char(i) as u32;
        let la = if 65 <= ca && ca <= 90 {
            ca + 32
        } else {
            ca
        };
        let lb = if 65 <= cb && cb <= 90 {
            cb + 32
        } else {
            cb
        };
        if la != lb {
            return false;
        }
        i += 1;
    }
    true
}

} // verus!
