//! A single-user media catalog: typed records, their stable integer encoding,
//! a compiler from structured queries to parameterized SQL, and a repository
//! over an embedded SQLite database.
use vstd::prelude::*;

pub mod codec;
pub mod laws;
pub mod models;
pub mod repo;
pub mod sql;
pub mod sqlite_repo;
