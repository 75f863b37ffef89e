//! Where the store lives, and how a store is made from that.

use crate::error::StoreError;
use crate::providers::bases::sqlite::SqliteProvider;
use crate::providers::{AccountProvider, TransactionWorker, UserProvider};
use vstd::prelude::*;

verus! {

/// Connection target of the store on SQLite: a file on disk, or a database
/// that lives in memory only.
#[derive(Clone, Debug)]
pub struct SqliteConfiguration {
    pub connection_string: String,
    pub memory_base: bool,
}

/// A configuration from which a store with all three capabilities can be
/// made.
pub trait StorageConfiguration<T> where T: UserProvider + AccountProvider + TransactionWorker {
    /// Makes the store.
    fn configure(&self) -> (configured: Result<T, StoreError>)
        ensures
            configured matches Err(error) ==> error is StoreUnavailable || error is MigrationFailed,
    ;
}

impl SqliteConfiguration {
    /// A store kept in the file at `connection_string`.
    pub fn new(connection_string: &str) -> (config: Self)
        ensures
            config.connection_string@ == connection_string@,
            !config.memory_base,
    {
        Self { connection_string: connection_string.to_string(), memory_base: false }
    }

    /// A store kept in memory only; it has no path.
    pub fn memory_base() -> (config: Self)
        ensures
            config.connection_string@ == Seq::<char>::empty(),
            config.memory_base,
    {
        Self { connection_string: String::new(), memory_base: true }
    }
}

impl StorageConfiguration<SqliteProvider> for SqliteConfiguration {
    /// Opens the store on SQLite and brings its schema up to date.
    fn configure(&self) -> (configured: Result<SqliteProvider, StoreError>)
        ensures
            configured matches Ok(store) ==> store.config().connection_string@
                == self.connection_string@ && store.config().memory_base == self.memory_base,
    {
        SqliteProvider::new(self, true)
    }
}

} // verus!
