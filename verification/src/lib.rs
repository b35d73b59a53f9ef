//! Typed access to SQL databases: how a client asks a driver to run a
//! statement, what it makes of the answers, and how it reports a failure.

pub mod driver;
pub mod error;
pub mod laws;
pub mod run;
pub mod sqlite;
pub mod turso_db;
