//! The repository over an embedded SQLite database file.
use vstd::prelude::*;

use crate::models::{MediaItem, Query, Stats, Status};
use crate::repo::{RepoError, RepoResult, Repository};
use crate::sql::{
    columns_view, compile_query, count_by_category_sql, count_by_status_statement, count_sql,
    delete_statement, find_by_id, get_statement, insert_statement, item_of_row, rows_to_items, schema_sql,
    stats_from_counts, update_statement, RowColumns, SqlParam, Statement,
};
use rusqlite::types::Value;
use rusqlite::Connection;

verus! {

#[verifier::external_type_specification]
#[verifier::external_body]
pub struct ExConnection(rusqlite::Connection);

#[verifier::external_type_specification]
#[verifier::external_body]
pub struct ExValue(rusqlite::types::Value);

/// Relies on rusqlite::Connection::open: opens the database file at the path,
/// creating it when absent.
#[verifier::external_body]
fn open_db(path: &str) -> (r: Result<Connection, rusqlite::Error>) {
    Connection::open(path)
}

/// Relies on the variants of rusqlite::types::Value: a parameter as the SQLite
/// value of the same kind.
#[verifier::external_body]
fn to_value(p: &SqlParam) -> (r: Value) {
    match p {
        SqlParam::Null => Value::Null,
        SqlParam::Int(i) => Value::Integer(*i),
        SqlParam::Text(s) => Value::Text(s.clone()),
    }
}

/// Relies on rusqlite::Connection::execute_batch: runs each statement of the
/// text in turn.
#[verifier::external_body]
fn run_batch(conn: &Connection, sql: &str) -> (r: Result<(), rusqlite::Error>) {
    conn.execute_batch(sql)
}

/// Relies on rusqlite::Connection::execute: runs one statement with its
/// parameters bound in order, returning the number of rows changed.
#[verifier::external_body]
fn run(conn: &Connection, st: &Statement) -> (r: Result<usize, rusqlite::Error>) {
    conn.execute(st.sql.as_str(), rusqlite::params_from_iter(st.params.iter().map(to_value)))
}

/// Relies on rusqlite::Connection::last_insert_rowid: the identity of the row
/// most recently inserted through this connection.
#[verifier::external_body]
fn last_rowid(conn: &Connection) -> (r: i64) {
    conn.last_insert_rowid()
}

/// Relies on rusqlite::Connection::prepare and Statement::query_map: every row
/// the statement selects, in the order the database returns them, read as the
/// nine record columns.
#[verifier::external_body]
fn query_rows(conn: &Connection, st: &Statement) -> (r: Result<Vec<RowColumns>, rusqlite::Error>) {
    let mut stmt = conn.prepare(st.sql.as_str())?;
    let params = rusqlite::params_from_iter(st.params.iter().map(to_value));
    let rows = stmt.query_map(params, |row| RowColumns::try_from(row))?;
    rows.collect()
}

/// Relies on rusqlite::Connection::prepare and Statement::query_map: every row
/// the statement selects, read as two integer columns.
#[verifier::external_body]
fn query_pairs(conn: &Connection, st: &Statement) -> (r: Result<Vec<(i64, i64)>, rusqlite::Error>) {
    let mut stmt = conn.prepare(st.sql.as_str())?;
    let params = rusqlite::params_from_iter(st.params.iter().map(to_value));
    let rows = stmt.query_map(params, |row| <(i64, i64)>::try_from(row))?;
    rows.collect()
}

/// Relies on rusqlite::Connection::query_row: the first column of the first
/// row the statement selects, as an integer.
#[verifier::external_body]
fn query_int(conn: &Connection, st: &Statement) -> (r: Result<i64, rusqlite::Error>) {
    let params = rusqlite::params_from_iter(st.params.iter().map(to_value));
    conn.query_row(st.sql.as_str(), params, |row| row.get(0))
}

/// A catalog stored in one SQLite database. The connection is owned here alone;
/// sharing a repository between threads takes a lock around it.
pub struct SqliteRepo {
    conn: Connection,
}

impl SqliteRepo {
    /// Opens, or creates, the database at the path. `":memory:"` opens a
    /// database that lives as long as the repository.
    pub fn new(path: &str) -> (r: RepoResult<SqliteRepo>)
        ensures
            r matches Err(e) ==> e is Sqlite,
    {
        match open_db(path) {
            Ok(conn) => Ok(SqliteRepo { conn }),
            Err(e) => Err(RepoError::Sqlite(e)),
        }
    }

    fn execute(&self, st: &Statement) -> (r: RepoResult<()>)
        ensures
            r matches Err(e) ==> e is Sqlite,
    {
        match run(&self.conn, st) {
            Ok(_) => Ok(()),
            Err(e) => Err(RepoError::Sqlite(e)),
        }
    }

    fn fetch(&self, st: &Statement) -> (r: RepoResult<Vec<MediaItem>>)
        ensures
            r matches Ok(v) ==> forall|i: int| 0 <= i < v@.len() ==> (#[trigger] v@[i]).id is Some,
            r matches Err(e) ==> e is Sqlite,
    {
        match query_rows(&self.conn, st) {
            Ok(rows) => {
                let ghost cols = rows@;
                let items = rows_to_items(rows);
                assert forall|i: int| 0 <= i < items@.len() implies (#[trigger] items@[i]).id is Some by {
                    assert(items@[i]@ == item_of_row(columns_view(cols[i])));
                }
                Ok(items)
            },
            Err(e) => Err(RepoError::Sqlite(e)),
        }
    }

    fn count(&self, st: &Statement) -> (r: RepoResult<i64>)
        ensures
            r matches Err(e) ==> e is Sqlite,
    {
        match query_int(&self.conn, st) {
            Ok(n) => Ok(n),
            Err(e) => Err(RepoError::Sqlite(e)),
        }
    }
}

impl Repository for SqliteRepo {
    fn init(&self) -> (r: RepoResult<()>) {
        match run_batch(&self.conn, schema_sql()) {
            Ok(()) => Ok(()),
            Err(e) => Err(RepoError::Sqlite(e)),
        }
    }

    fn add(&self, item: &mut MediaItem) -> (r: RepoResult<i64>) {
        let st = insert_statement(item);
        match self.execute(&st) {
            Ok(()) => {},
            Err(e) => return Err(e),
        }
        let id = last_rowid(&self.conn);
        item.id = Some(id);
        Ok(id)
    }

    fn update(&self, item: &MediaItem) -> (r: RepoResult<()>) {
        self.execute(&update_statement(item))
    }

    fn delete(&self, id: i64) -> (r: RepoResult<()>) {
        self.execute(&delete_statement(id))
    }

    fn get(&self, id: i64) -> (r: RepoResult<Option<MediaItem>>) {
        match self.fetch(&get_statement(id)) {
            Ok(items) => Ok(find_by_id(items, id)),
            Err(e) => Err(e),
        }
    }

    fn list(&self, q: &Query) -> (r: RepoResult<Vec<MediaItem>>) {
        self.fetch(&compile_query(q))
    }

    fn stats(&self) -> (r: RepoResult<Stats>) {
        let total = match self.count(&Statement { sql: String::from_str(count_sql()), params: Vec::new() }) {
            Ok(n) => n,
            Err(e) => return Err(e),
        };
        let by_category = Statement { sql: String::from_str(count_by_category_sql()), params: Vec::new() };
        let groups = match query_pairs(&self.conn, &by_category) {
            Ok(g) => g,
            Err(e) => return Err(RepoError::Sqlite(e)),
        };
        let finished = match self.count(&count_by_status_statement(Status::Finished)) {
            Ok(n) => n,
            Err(e) => return Err(e),
        };
        match stats_from_counts(total, &groups, finished) {
            Some(st) => Ok(st),
            None => Err(RepoError::Other(String::from_str("the store reported inconsistent counts"))),
        }
    }
}

} // verus!
