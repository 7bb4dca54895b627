//! Laws of the credential rules and of the service, stated over the spec
//! functions that the contracts of the executable functions use.

use vstd::prelude::*;
use crate::domain::{login_outcome, register_outcome, Hasher, Records, ServiceError, User};
use crate::validation::{
    email_shape, has_digit, has_letter, is_whitespace, shaped_at, validation_outcome,
    is_part_char, ValidationError, MIN_PASSWORD_CHARS,
};

verus! {

/// A password of fewer than eight characters is rejected, whatever it
/// holds and whatever the email address.
pub proof fn lemma_short_password_rejected(email: Seq<char>, password: Seq<char>)
    requires
        password.len() < MIN_PASSWORD_CHARS,
    ensures
        validation_outcome(email, password) is Err,
        email_shape(email) ==> validation_outcome(email, password) == Err::<(), ValidationError>(
            ValidationError::PasswordTooShort,
        ),
{
}

/// A password of eight characters or more that lacks a letter or lacks a
/// digit is rejected.
pub proof fn lemma_weak_password_rejected(email: Seq<char>, password: Seq<char>)
    requires
        password.len() >= MIN_PASSWORD_CHARS,
        !has_letter(password) || !has_digit(password),
    ensures
        validation_outcome(email, password) is Err,
        email_shape(email) ==> validation_outcome(email, password) == Err::<(), ValidationError>(
            ValidationError::PasswordTooWeak,
        ),
{
}

/// An email address that does not have the shape `local@domain.tld` is
/// rejected as an invalid email, whatever the password.
pub proof fn lemma_misshapen_email_rejected(email: Seq<char>, password: Seq<char>)
    requires
        !email_shape(email),
    ensures
        validation_outcome(email, password) == Err::<(), ValidationError>(
            ValidationError::InvalidEmail,
        ),
{
}

/// A text without `@` does not have the shape of an email address.
pub proof fn lemma_no_at_sign_no_shape(email: Seq<char>)
    requires
        forall|i: int| 0 <= i < email.len() ==> email[i] != '@',
    ensures
        !email_shape(email),
{
}

/// A text with no dot after its first `@` does not have the shape of an
/// email address.
pub proof fn lemma_no_dot_after_at_no_shape(email: Seq<char>, at: int)
    requires
        0 <= at < email.len(),
        email[at] == '@',
        forall|i: int| 0 <= i < at ==> email[i] != '@',
        forall|i: int| at < i < email.len() ==> email[i] != '.',
    ensures
        !email_shape(email),
{
    assert forall|a: int, d: int| !shaped_at(email, a, d) by {
        if shaped_at(email, a, d) {
            if a != at {
                assert(is_part_char(email[at]));
            }
        }
    }
}

/// A text that holds a whitespace character anywhere does not have the
/// shape of an email address.
pub proof fn lemma_whitespace_no_shape(email: Seq<char>, i: int)
    requires
        0 <= i < email.len(),
        is_whitespace(email[i]),
    ensures
        !email_shape(email),
{
    assert forall|a: int, d: int| !shaped_at(email, a, d) by {
        if shaped_at(email, a, d) {
            assert(is_part_char(email[i]));
        }
    }
}

/// Whatever a hasher returns for a password, it verifies that password
/// against it: `hashed` is what `hash` returned, `stored` the same text and
/// `answer` what `verify` returned for it.
pub proof fn lemma_fresh_hash_verifies<H: Hasher>(
    hasher: &H,
    password: &str,
    hashed: String,
    stored: &str,
    answer: bool,
)
    requires
        call_ensures(H::hash, (hasher, password), Ok::<String, String>(hashed)),
        stored@ == hashed@,
        call_ensures(H::verify, (hasher, password, stored), answer),
    ensures
        answer,
{
}

/// Where an account was registered under an email address, a second
/// registration under that address with any valid password fails as a
/// duplicate and leaves the records as they were.
pub proof fn lemma_second_registration_is_duplicate<H: Hasher>(
    hasher: H,
    start: Records,
    email: Seq<char>,
    first_password: Seq<char>,
    first: Result<(), ServiceError>,
    between: Records,
    second_password: Seq<char>,
    second: Result<(), ServiceError>,
    end: Records,
)
    requires
        register_outcome(hasher, start, email, first_password, first, between),
        first is Ok,
        validation_outcome(email, second_password) is Ok,
        register_outcome(hasher, between, email, second_password, second, end),
    ensures
        second == Err::<(), ServiceError>(ServiceError::DuplicateAccount),
        end == between,
{
}

/// After a successful registration, a login with the same email address and
/// password succeeds: it returns the record that was stored, whose email is
/// the one given and whose identifier is not empty.
pub proof fn lemma_login_after_registration<H: Hasher>(
    hasher: H,
    start: Records,
    email: Seq<char>,
    password: Seq<char>,
    registered: Result<(), ServiceError>,
    records: Records,
    login: Result<User, ServiceError>,
)
    requires
        register_outcome(hasher, start, email, password, registered, records),
        registered is Ok,
        login_outcome(hasher, records, email, password, login),
    ensures
        login matches Ok(user) && user@ == records[email] && user@.email == email
            && user@.id.len() > 0,
{
}

/// Two successful logins with the same credentials on the same records
/// return the same record, and so the same identifier.
pub proof fn lemma_login_is_stable<H: Hasher>(
    hasher: H,
    records: Records,
    email: Seq<char>,
    password: Seq<char>,
    once: Result<User, ServiceError>,
    again: Result<User, ServiceError>,
)
    requires
        login_outcome(hasher, records, email, password, once),
        login_outcome(hasher, records, email, password, again),
    ensures
        once is Ok <==> again is Ok,
        once matches Ok(a) ==> again matches Ok(b) && a@ == b@,
{
}

/// A login with valid credentials fails as an authentication failure both
/// where the email address is registered and the password does not match
/// it, and where the email address is not registered: the two cannot be
/// told apart by the error.
pub proof fn lemma_failed_logins_look_alike<H: Hasher>(
    hasher: H,
    records: Records,
    known_email: Seq<char>,
    wrong_password: Seq<char>,
    mismatch: Result<User, ServiceError>,
    unknown_email: Seq<char>,
    password: Seq<char>,
    unknown: Result<User, ServiceError>,
)
    requires
        validation_outcome(known_email, wrong_password) is Ok,
        records.contains_key(known_email),
        !hasher.accepts(wrong_password, records[known_email].password),
        login_outcome(hasher, records, known_email, wrong_password, mismatch),
        validation_outcome(unknown_email, password) is Ok,
        !records.contains_key(unknown_email),
        login_outcome(hasher, records, unknown_email, password, unknown),
    ensures
        mismatch == Err::<User, ServiceError>(ServiceError::AuthenticationFailed),
        unknown == Err::<User, ServiceError>(ServiceError::AuthenticationFailed),
        mismatch == unknown,
{
}

} // verus!
