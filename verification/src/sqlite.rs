//! The calls into SQLite. Nothing in this file is proved: each function
//! hands its arguments to `rusqlite` and its answer back, and none promises
//! anything of that answer, which depends on what the database file holds
//! and on who else has it open.
use vstd::prelude::*;
use crate::error::SqlFailure;
use crate::post::Post;

verus! {

#[verifier::external_type_specification]
#[verifier::external_body]
pub struct ExConnection(rusqlite::Connection);

#[verifier::external_type_specification]
#[verifier::external_body]
pub struct ExSqliteError(rusqlite::Error);

#[verifier::external_type_specification]
#[verifier::external_body]
pub struct ExCachedStatement<'conn>(rusqlite::CachedStatement<'conn>);

/// `rusqlite::Connection::open`: opens the database at `path` for reading and
/// writing, creating it if it is not there. Nothing is claimed of the answer.
#[verifier::external_body]
pub(crate) fn open(path: &str) -> (opened: Result<rusqlite::Connection, rusqlite::Error>) {
    rusqlite::Connection::open(path)
}

/// `rusqlite::Connection::execute_batch`: runs the statements of `sql` one
/// after the other and stops at the first that fails. Nothing is claimed of
/// the answer.
#[verifier::external_body]
pub(crate) fn execute_batch(conn: &rusqlite::Connection, sql: &str) -> (ran: Result<
    (),
    rusqlite::Error,
>) {
    conn.execute_batch(sql)
}

/// `rusqlite::Connection::prepare_cached`: compiles `sql`, or takes the
/// compiled statement from the connection's cache. Nothing is claimed of the
/// answer.
#[verifier::external_body]
pub(crate) fn prepare_cached<'conn>(conn: &'conn rusqlite::Connection, sql: &str) -> (prepared:
    Result<rusqlite::CachedStatement<'conn>, rusqlite::Error>) {
    conn.prepare_cached(sql)
}

/// `rusqlite::Statement::execute`: binds `params` to the placeholders in
/// order and runs the statement; on success the answer is the number of rows
/// changed. Nothing is claimed of the answer.
#[verifier::external_body]
pub(crate) fn execute(statement: &mut rusqlite::CachedStatement<'_>, params: &Vec<&str>) -> (ran:
    Result<usize, rusqlite::Error>) {
    statement.execute(rusqlite::params_from_iter(params.iter()))
}

/// `rusqlite::Statement::query_row`: binds `params`, runs the statement and
/// reads the five columns of its first row with `rusqlite::Row::get`; a
/// statement that yields no row fails. Nothing is claimed of the answer.
#[verifier::external_body]
pub(crate) fn query_post(statement: &mut rusqlite::CachedStatement<'_>, params: &Vec<&str>) -> (row:
    Result<Post, rusqlite::Error>) {
    statement.query_row(rusqlite::params_from_iter(params.iter()), |row| {
        Ok(Post {
            id: row.get(0)?,
            user_id: row.get(1)?,
            content: row.get(2)?,
            created_at: row.get(3)?,
            updated_at: row.get(4)?,
        })
    })
}

/// `rusqlite::Connection::pragma_query_value`: the integer that the pragma
/// `name` currently has on this connection. Nothing is claimed of the answer.
#[verifier::external_body]
pub(crate) fn pragma_value(conn: &rusqlite::Connection, name: &str) -> (value: Result<
    i64,
    rusqlite::Error,
>) {
    conn.pragma_query_value(None, name, |row| row.get(0))
}

/// Tells the variants of `rusqlite::Error` apart: a failure of the engine
/// comes with its extended result code, a query without rows is named, and
/// every other variant is `Other`.
#[verifier::external_body]
pub(crate) fn failure_of(error: &rusqlite::Error) -> (failure: SqlFailure) {
    match error {
        rusqlite::Error::SqliteFailure(cause, _) => SqlFailure::Engine {
            extended_code: cause.extended_code,
        },
        rusqlite::Error::QueryReturnedNoRows => SqlFailure::NoRows,
        _ => SqlFailure::Other,
    }
}

} // verus!
