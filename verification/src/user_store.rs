//! The in-memory store in its plaintext variant: it can compare the stored
//! credential with a raw password itself. Fit for tests only.

use vstd::prelude::*;
use crate::domain::{Records, User, UserStore};
use crate::inmem_user_store::InMemUserStore;

verus! {

/// An in-memory store that also answers lookups by email address and raw
/// password.
pub struct InMemStore {
    users: InMemUserStore,
}

impl InMemStore {
    /// An empty store.
    pub fn new() -> (store: Self)
        ensures
            store.records() == Records::empty(),
    {
        Self { users: InMemUserStore::new() }
    }

    /// Looks up the record stored under exactly `email` and hands it out
    /// only if its stored credential equals `password`, character for
    /// character.
    pub fn get_user_by_email_and_password(&self, email: &str, password: &str) -> (r: Result<
        User,
        String,
    >)
        ensures
            match r {
                Ok(user) => {
                    &&& self.records().contains_key(email@)
                    &&& user@ == self.records()[email@]
                    &&& user@.password == password@
                },
                Err(reason) => if self.records().contains_key(email@) {
                    self.records()[email@].password != password@ && reason@ == "Invalid password"@
                } else {
                    reason@ == "User not found"@
                },
            },
    {
        match self.users.get_user_by_email(email) {
            Ok(user) => {
                let given = password.to_owned();
                if user.password == given {
                    Ok(user)
                } else {
                    Err("Invalid password".to_owned())
                }
            },
            Err(reason) => Err(reason),
        }
    }
}

impl UserStore for InMemStore {
    closed spec fn records(&self) -> Records {
        self.users.records()
    }

    /// Never fails.
    fn create_user(&mut self, user: User) -> (r: Result<(), String>)
        ensures
            r is Ok,
    {
        self.users.create_user(user)
    }

    /// An address that is not there is reported as `User not found`.
    fn get_user_by_email(&self, email: &str) -> (r: Result<User, String>)
        ensures
            r matches Err(reason) ==> reason@ == "User not found"@,
    {
        self.users.get_user_by_email(email)
    }
}

} // verus!
