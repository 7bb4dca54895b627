//! A volatile store of user records, kept in memory.

use vstd::prelude::*;
use vstd::hash_map::StringHashMap;
use crate::domain::{Records, User, UserStore};

verus! {

/// User records in a hash map, keyed by email address.
pub struct InMemUserStore {
    users: StringHashMap<User>,
}

impl InMemUserStore {
    /// An empty store.
    pub fn new() -> (store: Self)
        ensures
            store.records() == Records::empty(),
    {
        let store = Self { users: StringHashMap::new() };
        assert(store.records() =~= Records::empty());
        store
    }
}

impl UserStore for InMemUserStore {
    closed spec fn records(&self) -> Records {
        Map::new(
            |email: Seq<char>| self.users@.contains_key(email),
            |email: Seq<char>| self.users@[email]@,
        )
    }

    /// Never fails.
    fn create_user(&mut self, user: User) -> (r: Result<(), String>)
        ensures
            r is Ok,
    {
        let key = user.email.clone();
        let ghost data = user@;
        self.users.insert(key, user);
        assert(final(self).records() =~= old(self).records().insert(key@, data));
        Ok(())
    }

    /// An address that is not there is reported as `User not found`.
    fn get_user_by_email(&self, email: &str) -> (r: Result<User, String>)
        ensures
            r matches Err(reason) ==> reason@ == "User not found"@,
    {
        match self.users.get(email) {
            Some(user) => Ok(user.clone()),
            None => Err("User not found".to_owned()),
        }
    }
}

} // verus!
