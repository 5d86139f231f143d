//! Export file password policy.
//!
//! An export is encrypted with a user-chosen password; the policy demands at
//! least 12 bytes and at least one upper-case, lower-case, numeric and
//! special character.

use vstd::prelude::*;
use vstd::string::StrSliceExecFns;
use vstd::string::StringSliceAdditionalSpecFns;

verus! {

/// Whether a character is upper-case; what `char::is_uppercase` reports, a
/// function of the character alone.
pub uninterp spec fn char_is_upper(c: char) -> bool;

/// Whether a character is lower-case; what `char::is_lowercase` reports.
pub uninterp spec fn char_is_lower(c: char) -> bool;

/// Whether a character is numeric; what `char::is_numeric` reports.
pub uninterp spec fn char_is_numeric(c: char) -> bool;

/// Whether a character is alphanumeric; what `char::is_alphanumeric`
/// reports.
pub uninterp spec fn char_is_alphanumeric(c: char) -> bool;

/// Relies on `char::is_uppercase`.
#[verifier::external_body]
fn is_upper_char(c: char) -> (r: bool)
    ensures
        r == char_is_upper(c),
{
    c.is_uppercase()
}

/// Relies on `char::is_lowercase`.
#[verifier::external_body]
fn is_lower_char(c: char) -> (r: bool)
    ensures
        r == char_is_lower(c),
{
    c.is_lowercase()
}

/// Relies on `char::is_numeric`.
#[verifier::external_body]
fn is_numeric_char(c: char) -> (r: bool)
    ensures
        r == char_is_numeric(c),
{
    c.is_numeric()
}

/// Relies on `char::is_alphanumeric`.
#[verifier::external_body]
fn is_alphanumeric_char(c: char) -> (r: bool)
    ensures
        r == char_is_alphanumeric(c),
{
    c.is_alphanumeric()
}

/// The password policy: at least 12 bytes, and at least one upper-case, one
/// lower-case, one numeric and one special (non-alphanumeric) character.
pub open spec fn spec_password_ok(s: &str) -> bool {
    &&& s.spec_bytes().len() >= 12
    &&& exists|j: int| 0 <= j < s@.len() && char_is_upper(s@[j])
    &&& exists|j: int| 0 <= j < s@.len() && char_is_lower(s@[j])
    &&& exists|j: int| 0 <= j < s@.len() && char_is_numeric(s@[j])
    &&& exists|j: int| 0 <= j < s@.len() && !char_is_alphanumeric(s@[j])
}

/// Check the password policy for an export: `Ok` exactly on passwords that
/// meet it, an explanatory message otherwise.
pub fn validate_password(password: &str) -> (r: Result<(), String>)
    ensures
        r is Ok <==> spec_password_ok(password),
{
    if password.as_bytes().len() < 12 {
        proof {
            assert(password.spec_bytes().len() < 12);
        }
        return Err("the password must be at least 12 characters".to_owned());
    }
    let n = password.unicode_len();
    let mut has_upper = false;
    let mut has_lower = false;
    let mut has_digit = false;
    let mut has_special = false;
    let mut i: usize = 0;
    while i < n
        invariant
            password.spec_bytes().len() >= 12,
            n == password@.len(),
            0 <= i <= n,
            has_upper <==> exists|j: int| 0 <= j < i && char_is_upper(password@[j]),
            has_lower <==> exists|j: int| 0 <= j < i && char_is_lower(password@[j]),
            has_digit <==> exists|j: int| 0 <= j < i && char_is_numeric(password@[j]),
            has_special <==> exists|j: int| 0 <= j < i && !char_is_alphanumeric(password@[j]),
        decreases n - i,
    {
        let c = password.get_char(i);
        if is_upper_char(c) {
            has_upper = true;
        }
        if is_lower_char(c) {
            has_lower = true;
        }
        if is_numeric_char(c) {
            has_digit = true;
        }
        if !is_alphanumeric_char(c) {
            has_special = true;
        }
        i = i + 1;
    }
    if has_upper && has_lower && has_digit && has_special {
        Ok(())
    } else {
        Err(
            "the password must contain upper-case, lower-case, numeric and special characters".to_owned(),
        )
    }
}

} // verus!
