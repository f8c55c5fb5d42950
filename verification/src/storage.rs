//! Where the backing store is found.

use vstd::prelude::*;

verus! {

/// The settings under which the backing store is reached. The crate holds
/// them and hands them on; it never opens a connection itself.
#[derive(Debug, Clone, PartialEq, Eq)]
pub struct Storage {
    pub host: String,
    pub user: String,
    pub password: String,
    pub database: String,
}

/// Storage settings as plain sequences.
pub struct StorageView {
    pub host: Seq<char>,
    pub user: Seq<char>,
    pub password: Seq<char>,
    pub database: Seq<char>,
}

impl View for Storage {
    type V = StorageView;

    open spec fn view(&self) -> StorageView {
        StorageView {
            host: self.host@,
            user: self.user@,
            password: self.password@,
            database: self.database@,
        }
    }
}

impl Storage {
    /// The settings for the store at `host`, entered as `user` with
    /// `password`, holding the data in `database`.
    pub fn new(host: String, user: String, password: String, database: String) -> (storage:
        Storage)
        ensures
            storage@ == (StorageView {
                host: host@,
                user: user@,
                password: password@,
                database: database@,
            }),
    {
        Storage { host, user, password, database }
    }

    /// A copy of these settings.
    pub fn duplicate(&self) -> (copy: Storage)
        ensures
            copy@ == self@,
    {
        Storage {
            host: self.host.clone(),
            user: self.user.clone(),
            password: self.password.clone(),
            database: self.database.clone(),
        }
    }
}

} // verus!
