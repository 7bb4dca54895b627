//! The user record, the two capabilities the service is built from, and the
//! service that registers accounts and authenticates logins.

use vstd::prelude::*;
use crate::validation::{validate_credentials, validation_outcome, ValidationError};

verus! {

/// The number of characters in a freshly generated identifier.
pub const ID_CHARS: usize = 36;

/// A user record as the contracts see it: its three texts as sequences of
/// characters.
pub struct UserData {
    pub id: Seq<char>,
    pub email: Seq<char>,
    pub password: Seq<char>,
}

/// A user record. `password` holds the stored representation of the
/// password, never the password itself.
#[derive(Debug)]
pub struct User {
    pub id: String,
    pub email: String,
    pub password: String,
}

impl View for User {
    type V = UserData;

    open spec fn view(&self) -> UserData {
        UserData { id: self.id@, email: self.email@, password: self.password@ }
    }
}

impl Clone for User {
    fn clone(&self) -> (r: Self)
        ensures
            r@ == self@,
    {
        User { id: self.id.clone(), email: self.email.clone(), password: self.password.clone() }
    }
}

/// The records of a store, keyed by email address.
pub type Records = Map<Seq<char>, UserData>;

/// Storage of user records, keyed by email address.
pub trait UserStore: Send + Sync + 'static {
    /// The records the store holds.
    spec fn records(&self) -> Records;

    /// Stores `user` under its email address, in place of any record that
    /// was there. A store that fails keeps what it had.
    fn create_user(&mut self, user: User) -> (r: Result<(), String>)
        ensures
            r is Ok ==> final(self).records() == old(self).records().insert(user.email@, user@),
            r is Err ==> final(self).records() == old(self).records(),
    ;

    /// Looks up the record stored under exactly `email`. An error says
    /// that no record is stored under it, and nothing else.
    fn get_user_by_email(&self, email: &str) -> (r: Result<User, String>)
        ensures
            r is Ok <==> self.records().contains_key(email@),
            r matches Ok(user) ==> user@ == self.records()[email@],
    ;
}

/// A one-way transform of passwords and the check against its output.
pub trait Hasher: Send + Sync + 'static {
    /// Whether `password` matches the stored representation `stored`.
    spec fn accepts(&self, password: Seq<char>, stored: Seq<char>) -> bool;

    /// Produces a stored representation of `password`; whatever comes out
    /// is accepted for that password.
    fn hash(&self, password: &str) -> (r: Result<String, String>)
        ensures
            r matches Ok(stored) ==> self.accepts(password@, stored@),
    ;

    /// Tells whether `password` matches `hashed_password`. A malformed
    /// `hashed_password` matches nothing.
    fn verify(&self, password: &str, hashed_password: &str) -> (r: bool)
        ensures
            r == self.accepts(password@, hashed_password@),
    ;
}

/// Why the service turned a request down.
#[derive(Debug, PartialEq, Eq)]
pub enum ServiceError {
    /// The credentials break a rule.
    Validation(ValidationError),
    /// A record with this email address already exists.
    DuplicateAccount,
    /// The hasher failed, with its message.
    Hashing(String),
    /// No record has this email address, or the password does not match it.
    AuthenticationFailed,
    /// The store failed, with its message.
    Store(String),
}

impl ServiceError {
    /// The text shown to a caller for this error.
    pub open spec fn message_text(self) -> Seq<char> {
        match self {
            ServiceError::Validation(ValidationError::InvalidEmail) => "Invalid email address."@,
            ServiceError::Validation(ValidationError::PasswordTooShort) => "Password must be at least 8 characters long."@,
            ServiceError::Validation(ValidationError::PasswordTooWeak) => "Password must contain at least one letter and one digit."@,
            ServiceError::DuplicateAccount => "Email already registered"@,
            ServiceError::Hashing(m) => m@,
            ServiceError::AuthenticationFailed => "Failed to login"@,
            ServiceError::Store(m) => m@,
        }
    }

    /// The human-readable message of this error.
    pub fn message(&self) -> (m: String)
        ensures
            m@ == self.message_text(),
    {
        match self {
            ServiceError::Validation(ValidationError::InvalidEmail) => "Invalid email address.".to_owned(),
            ServiceError::Validation(ValidationError::PasswordTooShort) => "Password must be at least 8 characters long.".to_owned(),
            ServiceError::Validation(ValidationError::PasswordTooWeak) => "Password must contain at least one letter and one digit.".to_owned(),
            ServiceError::DuplicateAccount => "Email already registered".to_owned(),
            ServiceError::Hashing(m) => m.clone(),
            ServiceError::AuthenticationFailed => "Failed to login".to_owned(),
            ServiceError::Store(m) => m.clone(),
        }
    }
}

/// Calls `uuid::Uuid::new_v4` and renders the identifier with its `Display`
/// impl. Trusted: the text is the hyphenated form, which always has 36
/// characters. Which identifier comes out is left open: it is random. The
/// call panics where the operating system hands out no random bytes.
#[verifier::external_body]
fn fresh_id() -> (id: String)
    ensures
        id@.len() == ID_CHARS,
{
    uuid::Uuid::new_v4().to_string()
}

/// Builds the record of a new account from a fresh identifier, the email
/// address and what the hasher returned for the password.
pub fn new_user(id: String, email: &str, hashed: Result<String, String>) -> (r: Result<
    User,
    ServiceError,
>)
    ensures
        match hashed {
            Ok(stored) => r matches Ok(user) && user@ == (UserData {
                id: id@,
                email: email@,
                password: stored@,
            }),
            Err(reason) => r matches Err(ServiceError::Hashing(m)) && m@ == reason@,
        },
{
    match hashed {
        Ok(stored) => Ok(User { id, email: email.to_owned(), password: stored }),
        Err(reason) => Err(ServiceError::Hashing(reason)),
    }
}

/// Turns what the store returned for a new record into the service's answer.
pub fn stored_outcome(created: Result<(), String>) -> (r: Result<(), ServiceError>)
    ensures
        match created {
            Ok(()) => r is Ok,
            Err(reason) => r matches Err(ServiceError::Store(m)) && m@ == reason@,
        },
{
    match created {
        Ok(()) => Ok(()),
        Err(reason) => Err(ServiceError::Store(reason)),
    }
}

/// What `register` may leave behind and return: `result` and the records
/// `after`, for a call with `email` and `password` on a service that held
/// `before` and hashes with `hasher`.
pub open spec fn register_outcome<H: Hasher>(
    hasher: H,
    before: Records,
    email: Seq<char>,
    password: Seq<char>,
    result: Result<(), ServiceError>,
    after: Records,
) -> bool {
    match validation_outcome(email, password) {
        Err(e) => result == Err::<(), ServiceError>(ServiceError::Validation(e)) && after
            == before,
        Ok(()) => if before.contains_key(email) {
            result == Err::<(), ServiceError>(ServiceError::DuplicateAccount) && after == before
        } else {
            match result {
                Ok(()) => {
                    &&& after == before.insert(email, after[email])
                    &&& after[email].email == email
                    &&& after[email].id.len() == ID_CHARS
                    &&& hasher.accepts(password, after[email].password)
                },
                Err(ServiceError::Hashing(_)) => after == before,
                Err(ServiceError::Store(_)) => after == before,
                Err(_) => false,
            }
        },
    }
}

/// What `login` returns: `result`, for a call with `email` and `password`
/// on a service that holds `records` and verifies with `hasher`.
pub open spec fn login_outcome<H: Hasher>(
    hasher: H,
    records: Records,
    email: Seq<char>,
    password: Seq<char>,
    result: Result<User, ServiceError>,
) -> bool {
    match validation_outcome(email, password) {
        Err(e) => result == Err::<User, ServiceError>(ServiceError::Validation(e)),
        Ok(()) => if records.contains_key(email) && hasher.accepts(
            password,
            records[email].password,
        ) {
            result matches Ok(user) && user@ == records[email]
        } else {
            result == Err::<User, ServiceError>(ServiceError::AuthenticationFailed)
        },
    }
}

/// The authentication service: a store of user records and a hasher.
pub struct Service<S: UserStore, H: Hasher> {
    user_store: S,
    hasher: H,
}

impl<S: UserStore, H: Hasher> Service<S, H> {
    /// The records the service's store holds.
    pub closed spec fn records(&self) -> Records {
        self.user_store.records()
    }

    /// The hasher the service was built with.
    pub closed spec fn hasher(&self) -> H {
        self.hasher
    }

    /// Builds a service on `user_store` and `hasher`.
    pub fn new(user_store: S, hasher: H) -> (service: Self)
        ensures
            service.records() == user_store.records(),
            service.hasher() == hasher,
    {
        Self { user_store, hasher }
    }

    /// Registers an account: validates the credentials, refuses an email
    /// address that is taken, hashes the password and stores a record under
    /// a fresh identifier. Whenever it fails the records stay as they were.
    pub fn register(&mut self, email: &str, password: &str) -> (r: Result<(), ServiceError>)
        ensures
            register_outcome(
                old(self).hasher(),
                old(self).records(),
                email@,
                password@,
                r,
                final(self).records(),
            ),
            final(self).hasher() == old(self).hasher(),
    {
        if let Err(e) = validate_credentials(email, password) {
            return Err(ServiceError::Validation(e));
        }
        if self.user_store.get_user_by_email(email).is_ok() {
            return Err(ServiceError::DuplicateAccount);
        }
        let hashed = self.hasher.hash(password);
        let user = match new_user(fresh_id(), email, hashed) {
            Ok(user) => user,
            Err(e) => {
                return Err(e);
            },
        };
        let created = self.user_store.create_user(user);
        stored_outcome(created)
    }

    /// Authenticates a login: validates the credentials, looks the record
    /// up by email address and verifies the password against it. An unknown
    /// address and a wrong password give the same error.
    pub fn login(&self, email: &str, password: &str) -> (r: Result<User, ServiceError>)
        ensures
            login_outcome(self.hasher(), self.records(), email@, password@, r),
    {
        if let Err(e) = validate_credentials(email, password) {
            return Err(ServiceError::Validation(e));
        }
        match self.user_store.get_user_by_email(email) {
            Ok(user) => {
                if self.hasher.verify(password, user.password.as_str()) {
                    Ok(user)
                } else {
                    Err(ServiceError::AuthenticationFailed)
                }
            },
            Err(_) => Err(ServiceError::AuthenticationFailed),
        }
    }
}

} // verus!
