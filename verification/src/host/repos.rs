//! Classification of database errors.

use vstd::prelude::*;
use crate::text::str_eq;

verus! {

/// The Postgres error code of a unique constraint violation.
pub open spec fn unique_violation_code() -> Seq<char> {
    "23505"@
}

/// A database error, holding the Postgres error code where it is an error reported by a Postgres
/// database.
#[derive(Debug)]
pub struct DbError {
    pub postgres_code: Option<String>,
}

/// An error inside a transaction.
#[derive(Debug)]
pub enum TxnError {
    /// Some other error, with its message.
    Anyhow { inner: String },
    DbErr { inner: DbError },
}

/// An error of a transaction: connecting, or inside it.
#[derive(Debug)]
pub enum TransactionError {
    Connection(DbError),
    Transaction(TxnError),
}

/// Whether `err` is a Postgres error with code `code`.
pub fn is_db_error_code(err: &DbError, code: &str) -> (matches: bool)
    ensures
        matches == (err.postgres_code matches Some(c) && c@ == code@),
{
    match &err.postgres_code {
        Some(c) => str_eq(c.as_str(), code),
        None => false,
    }
}

/// Errors that may be unique constraint violations.
pub trait DbErrorExt {
    /// Whether this is the violation of a unique constraint.
    spec fn spec_unique_violation(&self) -> bool;

    /// Whether this is the violation of a unique constraint.
    fn is_unique_violation(&self) -> (violation: bool)
        ensures
            violation == self.spec_unique_violation(),
    ;
}

impl DbErrorExt for DbError {
    open spec fn spec_unique_violation(&self) -> bool {
        self.postgres_code matches Some(c) && c@ == unique_violation_code()
    }

    fn is_unique_violation(&self) -> (violation: bool) {
        is_db_error_code(self, "23505")
    }
}

impl DbErrorExt for TxnError {
    open spec fn spec_unique_violation(&self) -> bool {
        self matches TxnError::DbErr { inner } && inner.spec_unique_violation()
    }

    fn is_unique_violation(&self) -> (violation: bool) {
        match self {
            TxnError::DbErr { inner } => inner.is_unique_violation(),
            _ => false,
        }
    }
}

impl DbErrorExt for TransactionError {
    open spec fn spec_unique_violation(&self) -> bool {
        match self {
            TransactionError::Connection(e) => e.spec_unique_violation(),
            TransactionError::Transaction(e) => e.spec_unique_violation(),
        }
    }

    fn is_unique_violation(&self) -> (violation: bool) {
        match self {
            TransactionError::Connection(err) => err.is_unique_violation(),
            TransactionError::Transaction(err) => err.is_unique_violation(),
        }
    }
}

} // verus!
