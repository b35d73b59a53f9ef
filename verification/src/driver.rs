//! The driver types that the clients carry. Nothing in this crate looks inside
//! a value of one of them.

use async_sqlite::Client as SqliteHandle;
use async_sqlite::Error as SqliteRefusal;
use rusqlite::Error as RusqliteRefusal;
use turso::transaction::Transaction as TursoTransaction;
use turso::Connection as TursoConnection;
use turso::Error as TursoRefusal;
use vstd::prelude::*;

verus! {

/// `async_sqlite::Client`: a handle on one background SQLite connection.
#[verifier::external_type_specification]
#[verifier::external_body]
pub struct ExSqliteHandle(SqliteHandle);

/// `async_sqlite::Error`: why a call through such a handle was refused.
#[verifier::external_type_specification]
#[verifier::external_body]
pub struct ExSqliteRefusal(SqliteRefusal);

/// `rusqlite::Error`: why SQLite itself refused a call.
#[verifier::external_type_specification]
#[verifier::external_body]
pub struct ExRusqliteRefusal(RusqliteRefusal);

/// `turso::Connection`: a Turso connection.
#[verifier::external_type_specification]
#[verifier::external_body]
pub struct ExTursoConnection(TursoConnection);

/// `turso::transaction::Transaction`: a transaction on a Turso connection.
#[verifier::external_type_specification]
#[verifier::external_body]
pub struct ExTursoTransaction<'conn>(TursoTransaction<'conn>);

/// `turso::Error`: why Turso refused a call.
#[verifier::external_type_specification]
#[verifier::external_body]
pub struct ExTursoRefusal(TursoRefusal);

/// `<async_sqlite::Client as Clone>::clone`: the clone is the same handle, so it
/// reaches the same background connection. (The handle is the sending end of
/// that connection's command queue, and a clone of it feeds the same queue.)
pub assume_specification[ <SqliteHandle as Clone>::clone ](handle: &SqliteHandle) -> (twin:
    SqliteHandle)
    ensures
        twin == *handle,
;

/// `<turso::Connection as Clone>::clone`: gives another handle on the same
/// connection. Nothing is claimed of it: the clone has a flag of its own for a
/// transaction that was dropped unfinished, so it is not the same handle.
pub assume_specification[ <TursoConnection as Clone>::clone ](connection: &TursoConnection) -> (twin:
    TursoConnection)
;

} // verus!
