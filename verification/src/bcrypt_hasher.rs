//! The hasher that keeps passwords as salted bcrypt digests.

use vstd::prelude::*;
use crate::domain::Hasher;

verus! {

/// The error type of the bcrypt crate.
#[verifier::external_type_specification]
#[verifier::external_body]
pub struct ExBcryptError(bcrypt::BcryptError);

/// What `bcrypt::verify` returns for a password and a digest: `Some` of its
/// answer, or `None` where it returns an error (a digest that cannot be
/// parsed).
pub uninterp spec fn bcrypt_verdict(password: Seq<char>, digest: Seq<char>) -> Option<bool>;

/// Calls `bcrypt::hash` at the crate's default cost. Trusted: a digest that
/// comes back is the crate's 60-character text of version, cost, salt and
/// hash; as it carries its salt and cost, `bcrypt::verify` recomputes the
/// same digest from the same password and answers `true`. Which digest comes
/// back is left open (the salt is random), and so is whether one does.
#[verifier::external_body]
fn bcrypt_hash(password: &str) -> (r: Result<String, bcrypt::BcryptError>)
    ensures
        r matches Ok(digest) ==> digest@.len() == DIGEST_CHARS && bcrypt_verdict(password@, digest@)
            == Some(true),
{
    bcrypt::hash(password, bcrypt::DEFAULT_COST)
}

/// Calls `bcrypt::verify`. Trusted: the outcome depends on the password
/// and the digest alone; an error comes back as `None`.
#[verifier::external_body]
fn bcrypt_verify(password: &str, digest: &str) -> (r: Option<bool>)
    ensures
        r == bcrypt_verdict(password@, digest@),
{
    bcrypt::verify(password, digest).ok()
}

/// Renders a `bcrypt::BcryptError` with its `Display` impl. Nothing is
/// claimed of the text.
#[verifier::external_body]
fn bcrypt_error_text(e: &bcrypt::BcryptError) -> String {
    e.to_string()
}

/// Whether an outcome of bcrypt's verification counts as a match: only a
/// plain yes does, an error does not.
pub fn is_match(outcome: Option<bool>) -> (matched: bool)
    ensures
        matched == (outcome == Some(true)),
{
    match outcome {
        Some(matched) => matched,
        None => false,
    }
}

/// Hashes passwords with bcrypt.
#[derive(Clone, Copy, Debug)]
pub struct BcryptHasher;

impl BcryptHasher {
    pub fn new() -> (hasher: Self)
        ensures
            hasher == BcryptHasher,
    {
        BcryptHasher
    }
}

impl Hasher for BcryptHasher {
    /// A password matches a digest where bcrypt verifies it without error.
    open spec fn accepts(&self, password: Seq<char>, stored: Seq<char>) -> bool {
        bcrypt_verdict(password, stored) == Some(true)
    }

    fn hash(&self, password: &str) -> (r: Result<String, String>)
        ensures
            r matches Ok(stored) ==> stored@.len() == DIGEST_CHARS,
    {
        digest_or_reason(bcrypt_hash(password))
    }

    fn verify(&self, password: &str, hashed_password: &str) -> (r: bool) {
        is_match(bcrypt_verify(password, hashed_password))
    }
}

/// The number of characters in a bcrypt digest.
pub const DIGEST_CHARS: usize = 60;

/// Turns what bcrypt returned for a password into the hasher's answer: the
/// digest as it came, or the text of bcrypt's error.
pub fn digest_or_reason(outcome: Result<String, bcrypt::BcryptError>) -> (r: Result<
    String,
    String,
>)
    ensures
        outcome matches Ok(digest) ==> r matches Ok(stored) && stored@ == digest@,
        outcome is Err ==> r is Err,
{
    match outcome {
        Ok(digest) => Ok(digest),
        Err(e) => Err(bcrypt_error_text(&e)),
    }
}

} // verus!
