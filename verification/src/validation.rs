//! Credential rules: the shape of an email address and the strength of a
//! password.

use vstd::prelude::*;
use vstd::string::*;

verus! {

/// Whether `c` is whitespace: one of the twenty-five characters that carry
/// the Unicode property `White_Space`.
pub open spec fn is_whitespace(c: char) -> bool {
    let u = c as u32;
    ||| 0x0009 <= u <= 0x000D
    ||| u == 0x0020
    ||| u == 0x0085
    ||| u == 0x00A0
    ||| u == 0x1680
    ||| 0x2000 <= u <= 0x200A
    ||| u == 0x2028
    ||| u == 0x2029
    ||| u == 0x202F
    ||| u == 0x205F
    ||| u == 0x3000
}

/// Whether `char::is_alphabetic` holds of `c` (the Unicode property `Alphabetic`).
pub uninterp spec fn is_alphabetic(c: char) -> bool;

/// Whether `char::is_numeric` holds of `c` (the Unicode general categories `Nd`, `Nl`, `No`).
pub uninterp spec fn is_numeric(c: char) -> bool;

/// Decides whether `c` is whitespace.
pub fn is_whitespace_char(c: char) -> (r: bool)
    ensures
        r == is_whitespace(c),
{
    let u: u32 = c as u32;
    (0x0009 <= u && u <= 0x000D) || u == 0x0020 || u == 0x0085 || u == 0x00A0 || u == 0x1680
        || (0x2000 <= u && u <= 0x200A) || u == 0x2028 || u == 0x2029 || u == 0x202F
        || u == 0x205F || u == 0x3000
}

/// Calls `char::is_alphabetic`. Trusted: the result is the std function's
/// answer for this character, which depends on the character alone.
#[verifier::external_body]
fn char_is_alphabetic(c: char) -> (r: bool)
    ensures
        r == is_alphabetic(c),
{
    c.is_alphabetic()
}

/// Calls `char::is_numeric`. Trusted: the result is the std function's
/// answer for this character, which depends on the character alone.
#[verifier::external_body]
fn char_is_numeric(c: char) -> (r: bool)
    ensures
        r == is_numeric(c),
{
    c.is_numeric()
}

/// The least number of characters a password may have.
pub const MIN_PASSWORD_CHARS: usize = 8;

/// Why a pair of credentials was turned down.
#[derive(Clone, Copy, Debug, PartialEq, Eq, Structural)]
pub enum ValidationError {
    /// The email address does not have the shape `local@domain.tld`.
    InvalidEmail,
    /// The password has fewer than eight characters.
    PasswordTooShort,
    /// The password lacks a letter or lacks a digit.
    PasswordTooWeak,
}

/// A character that may stand in any of the three parts of an address:
/// neither `@` nor whitespace.
pub open spec fn is_part_char(c: char) -> bool {
    c != '@' && !is_whitespace(c)
}

/// `s` reads `local@domain.tld` with its `@` at index `at` and the dot that
/// separates domain and tld at index `dot`: all three parts are non-empty and
/// apart from the `@` every character is a part character.
pub open spec fn shaped_at(s: Seq<char>, at: int, dot: int) -> bool {
    &&& 0 < at
    &&& at + 1 < dot
    &&& dot + 1 < s.len()
    &&& s[at] == '@'
    &&& s[dot] == '.'
    &&& forall|k: int| 0 <= k < s.len() && k != at ==> is_part_char(#[trigger] s[k])
}

/// `s` has the shape `local@domain.tld`.
pub open spec fn email_shape(s: Seq<char>) -> bool {
    exists|at: int, dot: int| shaped_at(s, at, dot)
}

/// Some character of `s` is alphabetic.
pub open spec fn has_letter(s: Seq<char>) -> bool {
    exists|i: int| 0 <= i < s.len() && is_alphabetic(#[trigger] s[i])
}

/// Some character of `s` is numeric.
pub open spec fn has_digit(s: Seq<char>) -> bool {
    exists|i: int| 0 <= i < s.len() && is_numeric(#[trigger] s[i])
}

/// The verdict on a password of `chars` characters, `letter` and `digit`
/// telling whether it holds one: the length is judged first.
pub open spec fn password_outcome(chars: nat, letter: bool, digit: bool) -> Result<
    (),
    ValidationError,
> {
    if chars < MIN_PASSWORD_CHARS {
        Err(ValidationError::PasswordTooShort)
    } else if !letter || !digit {
        Err(ValidationError::PasswordTooWeak)
    } else {
        Ok(())
    }
}

/// The verdict on a pair of credentials. The rules are tried in a fixed
/// order and the first one broken decides: the email's shape, then the
/// password's length in characters, then its letter and its digit.
pub open spec fn validation_outcome(email: Seq<char>, password: Seq<char>) -> Result<
    (),
    ValidationError,
> {
    if !email_shape(email) {
        Err(ValidationError::InvalidEmail)
    } else {
        password_outcome(password.len(), has_letter(password), has_digit(password))
    }
}

/// Decides whether `email` has the shape `local@domain.tld`.
pub fn is_valid_email(email: &str) -> (ok: bool)
    ensures
        ok == email_shape(email@),
{
    let n: usize = email.unicode_len();
    let ghost s = email@;
    // `at == n` while no `@` has been met; `dot == n` while no separating dot has.
    let mut at: usize = n;
    let mut dot: usize = n;
    let mut i: usize = 0;
    while i < n
        invariant
            s == email@,
            n == s.len(),
            i <= n,
            at < i || at == n,
            at < n ==> s[at as int] == '@',
            forall|k: int| 0 <= k < i && k != at ==> is_part_char(#[trigger] s[k]),
            dot < i || dot == n,
            dot < n ==> at + 1 < dot && dot + 1 < n && s[dot as int] == '.',
            dot == n ==> forall|k: int|
                at + 1 < k < i && k + 1 < n ==> #[trigger] s[k] != '.',
        decreases n - i,
    {
        let c = email.get_char(i);
        if c == '@' {
            if at < n {
                proof {
                    assert forall|a: int, d: int| !shaped_at(s, a, d) by {
                        if shaped_at(s, a, d) {
                            if a == i as int {
                                assert(is_part_char(s[at as int]));
                            } else {
                                assert(is_part_char(s[i as int]));
                            }
                        }
                    }
                }
                return false;
            }
            at = i;
        } else if is_whitespace_char(c) {
            proof {
                assert forall|a: int, d: int| !shaped_at(s, a, d) by {
                    if shaped_at(s, a, d) {
                        assert(is_part_char(s[i as int]));
                    }
                }
            }
            return false;
        } else if c == '.' && dot == n && at < n && at + 1 < i && i + 1 < n {
            dot = i;
        }
        i += 1;
    }
    let ok = 0 < at && at < n && dot < n;
    proof {
        if ok {
            assert(shaped_at(s, at as int, dot as int));
        } else {
            assert forall|a: int, d: int| !shaped_at(s, a, d) by {
                if shaped_at(s, a, d) {
                    if a != at as int {
                        assert(is_part_char(s[a]));
                        if at < n {
                            assert(is_part_char(s[at as int]));
                        }
                    } else {
                        assert(s[d] == '.');
                    }
                }
            }
        }
    }
    ok
}

/// Decides whether some character of `password` is alphabetic.
pub fn contains_letter(password: &str) -> (found: bool)
    ensures
        found == has_letter(password@),
{
    let n: usize = password.unicode_len();
    let mut i: usize = 0;
    while i < n
        invariant
            n == password@.len(),
            i <= n,
            forall|k: int| 0 <= k < i ==> !is_alphabetic(#[trigger] password@[k]),
        decreases n - i,
    {
        if char_is_alphabetic(password.get_char(i)) {
            return true;
        }
        i += 1;
    }
    false
}

/// Decides whether some character of `password` is numeric.
pub fn contains_digit(password: &str) -> (found: bool)
    ensures
        found == has_digit(password@),
{
    let n: usize = password.unicode_len();
    let mut i: usize = 0;
    while i < n
        invariant
            n == password@.len(),
            i <= n,
            forall|k: int| 0 <= k < i ==> !is_numeric(#[trigger] password@[k]),
        decreases n - i,
    {
        if char_is_numeric(password.get_char(i)) {
            return true;
        }
        i += 1;
    }
    false
}

/// Judges a password by its number of characters and by whether it holds
/// a letter and a digit.
pub fn password_verdict(chars: usize, letter: bool, digit: bool) -> (r: Result<
    (),
    ValidationError,
>)
    ensures
        r == password_outcome(chars as nat, letter, digit),
{
    if chars < MIN_PASSWORD_CHARS {
        Err(ValidationError::PasswordTooShort)
    } else if !letter || !digit {
        Err(ValidationError::PasswordTooWeak)
    } else {
        Ok(())
    }
}

/// Checks an email address and a password against the credential rules and
/// reports the first rule that is broken.
pub fn validate_credentials(email: &str, password: &str) -> (r: Result<(), ValidationError>)
    ensures
        r == validation_outcome(email@, password@),
{
    if !is_valid_email(email) {
        return Err(ValidationError::InvalidEmail);
    }
    password_verdict(password.unicode_len(), contains_letter(password), contains_digit(password))
}

} // verus!
