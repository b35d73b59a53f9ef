//! The error that every client reports: what the client was doing, and why it
//! could not.

use vstd::prelude::*;

verus! {

/// What a client was doing when it failed.
#[derive(Debug, Clone, Copy, PartialEq, Eq, Structural)]
pub enum ErrorKind {
    /// Reading a column of a row.
    FromColumn,
    /// Opening a database.
    Connect,
    /// Preparing a query text.
    Prepare,
    /// Running a statement or fetching its rows.
    Query,
    /// Beginning, committing or rolling back a transaction.
    Transaction,
}

/// A failure of a client, with its cause.
#[derive(Debug)]
pub struct Error<C> {
    pub kind: ErrorKind,
    pub cause: C,
}

impl<C> Error<C> {
    /// A column could not be read.
    pub fn from_column(cause: C) -> (error: Self)
        ensures
            error == (Error { kind: ErrorKind::FromColumn, cause }),
    {
        Error { kind: ErrorKind::FromColumn, cause }
    }

    /// A database could not be opened.
    pub fn connect(cause: C) -> (error: Self)
        ensures
            error == (Error { kind: ErrorKind::Connect, cause }),
    {
        Error { kind: ErrorKind::Connect, cause }
    }

    /// A query text could not be prepared.
    pub fn prepare(cause: C) -> (error: Self)
        ensures
            error == (Error { kind: ErrorKind::Prepare, cause }),
    {
        Error { kind: ErrorKind::Prepare, cause }
    }

    /// A statement could not be run, or its rows not be fetched.
    pub fn query(cause: C) -> (error: Self)
        ensures
            error == (Error { kind: ErrorKind::Query, cause }),
    {
        Error { kind: ErrorKind::Query, cause }
    }

    /// A transaction could not be begun, committed or rolled back.
    pub fn transaction(cause: C) -> (error: Self)
        ensures
            error == (Error { kind: ErrorKind::Transaction, cause }),
    {
        Error { kind: ErrorKind::Transaction, cause }
    }
}

} // verus!
