//! How handlers reach the database.
//!
//! Each handler call opens its own store handle through a connector, so the
//! service keeps no shared mutable state; tests inject a connector that opens
//! an in-memory store instead.

use vstd::prelude::*;

use crate::store::Store;

verus! {

/// Opens a fresh store handle. Implementors promise only that the handle has
/// no transaction open; the contents are whatever the database holds.
pub trait DatabaseConnector {
    fn open(&self) -> (r: Result<Store, rusqlite::Error>)
        ensures
            r matches Ok(s) ==> !s@.in_tx && s@.pending == s@.committed,
    ;
}

/// The production connector: a store in the database file at `path`.
pub struct DefaultDatabaseConnector {
    pub path: String,
}

impl DatabaseConnector for DefaultDatabaseConnector {
    fn open(&self) -> (r: Result<Store, rusqlite::Error>) {
        Store::open(self.path.as_str())
    }
}

} // verus!
