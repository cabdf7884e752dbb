//! Failure taxonomy of the order service.

use vstd::prelude::*;

verus! {

/// Why a handler failed.
///
/// `Idempotency`: the batch's idempotency key was already consumed.
/// `DataNotFound`: a requested row (menu item or order) does not exist.
/// `SqlError`: anything else the store reported.
/// `NoRowsReturned` is kept for compatibility with older callers; no handler
/// of this crate returns it.
#[derive(Debug)]
pub enum ServerError {
    NoRowsReturned,
    DataNotFound,
    Idempotency,
    SqlError(rusqlite::Error),
}

impl ServerError {
    /// A short diagnostic text, one word per variant.
    pub fn describe(&self) -> (r: String)
        ensures
            self matches ServerError::NoRowsReturned ==> r@ == "NoRowsReturned"@,
            self matches ServerError::DataNotFound ==> r@ == "DataNotFound"@,
            self matches ServerError::Idempotency ==> r@ == "Idempotency"@,
    {
        match self {
            ServerError::NoRowsReturned => "NoRowsReturned".to_owned(),
            ServerError::DataNotFound => "DataNotFound".to_owned(),
            ServerError::Idempotency => "Idempotency".to_owned(),
            ServerError::SqlError(e) => sql_error_text(e),
        }
    }
}

/// Relies on `<rusqlite::Error as ToString>::to_string` for the diagnostic
/// text of a store error.
#[verifier::external_body]
fn sql_error_text(e: &rusqlite::Error) -> String {
    e.to_string()
}

} // verus!
