//! The repository contract: errors and the operations every store offers.
use vstd::prelude::*;

use crate::models::{ItemView, MediaItem, Query, Stats};
use crate::sql::sum_named;

verus! {

#[verifier::external_type_specification]
#[verifier::external_body]
pub struct ExSqliteError(rusqlite::Error);

#[verifier::external_type_specification]
#[verifier::external_body]
pub struct ExIoError(std::io::Error);

/// A failed repository operation. A failed operation leaves the store as it was.
#[derive(Debug)]
pub enum RepoError {
    /// Any failure reported by the embedded database.
    Sqlite(rusqlite::Error),
    /// A filesystem failure around the store file.
    Io(std::io::Error),
    /// Anything else, described in words.
    Other(String),
}

pub type RepoResult<T> = Result<T, RepoError>;

/// A persistent catalog of media records.
pub trait Repository {
    /// Ensures the schema exists; safe to call on every start.
    fn init(&self) -> (r: RepoResult<()>)
        ensures
            r matches Err(e) ==> e is Sqlite,
    ;

    /// Saves a new record and gives it the identity the store assigned.
    fn add(&self, item: &mut MediaItem) -> (r: RepoResult<i64>)
        ensures
            match r {
                Ok(id) => final(item)@ == (ItemView { id: Some(id), ..old(item)@ }),
                Err(e) => *final(item) == *old(item) && e is Sqlite,
            },
    ;

    /// Overwrites the mutable fields of the record's row; no row, no change.
    fn update(&self, item: &MediaItem) -> (r: RepoResult<()>)
        ensures
            r matches Err(e) ==> e is Sqlite,
    ;

    /// Removes the row with this identity, if there is one.
    fn delete(&self, id: i64) -> (r: RepoResult<()>)
        ensures
            r matches Err(e) ==> e is Sqlite,
    ;

    /// The record with this identity, if there is one.
    fn get(&self, id: i64) -> (r: RepoResult<Option<MediaItem>>)
        ensures
            r matches Ok(Some(it)) ==> it.id == Some(id),
            r matches Err(e) ==> e is Sqlite,
    ;

    /// The records the query selects, in the query's order.
    fn list(&self, q: &Query) -> (r: RepoResult<Vec<MediaItem>>)
        ensures
            r matches Ok(v) ==> forall|i: int| 0 <= i < v@.len() ==> (#[trigger] v@[i]).id is Some,
            r matches Err(e) ==> e is Sqlite,
    ;

    /// Counts over the whole catalog, whatever the current filter.
    fn stats(&self) -> (r: RepoResult<Stats>)
        ensures
            r matches Ok(st) ==> st.unfinished == st.total - st.finished && sum_named(
                st.by_category@,
            ) == st.total,
            r matches Err(e) ==> e is Sqlite || e is Other,
    ;
}

} // verus!
