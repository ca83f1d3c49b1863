//! The calls into the SQL engine. Nothing here is proved: each function
//! hands its arguments to the engine and its answer back.

use vstd::prelude::*;

verus! {

#[verifier::external_type_specification]
#[verifier::external_body]
pub struct ExConnection(rusqlite::Connection);

#[verifier::external_type_specification]
#[verifier::external_body]
pub struct ExSqlError(rusqlite::Error);

/// `rusqlite::Connection::open`: opens the database at `path`, creating the
/// file where there is none. Nothing is claimed of the outcome.
#[verifier::external_body]
pub(crate) fn open_connection(path: &str) -> (r: Result<rusqlite::Connection, rusqlite::Error>) {
    rusqlite::Connection::open(path)
}

/// `rusqlite::Connection::execute`: runs one statement with `params` bound
/// to its placeholders in order, and reports how many rows it changed.
/// Nothing is claimed of the outcome: it depends on what the database holds.
#[verifier::external_body]
pub(crate) fn execute(conn: &rusqlite::Connection, sql: &str, params: &Vec<String>) -> (r: Result<
    usize,
    rusqlite::Error,
>) {
    conn.execute(sql, rusqlite::params_from_iter(params.iter()))
}

/// `rusqlite::Connection::query_row`: runs a query and reads the first
/// column of its first row as a 64-bit integer. Nothing is claimed of the
/// outcome: it depends on what the database holds.
#[verifier::external_body]
pub(crate) fn query_integer(conn: &rusqlite::Connection, sql: &str) -> (r: Result<i64, rusqlite::Error>) {
    conn.query_row(sql, [], |row| row.get::<_, i64>(0))
}

/// `ToString::to_string` on a `rusqlite::Error`: the error's message.
/// Nothing is claimed of the text.
#[verifier::external_body]
pub(crate) fn describe(err: &rusqlite::Error) -> (r: String) {
    err.to_string()
}

/// `rusqlite::Connection::execute` with one integer parameter: runs one
/// statement with `value` bound to its only placeholder, and reports how many
/// rows it changed. Nothing is claimed of the outcome: it depends on what the
/// database holds.
#[verifier::external_body]
pub(crate) fn execute_with_integer(conn: &rusqlite::Connection, sql: &str, value: i64) -> (r: Result<
    usize,
    rusqlite::Error,
>) {
    conn.execute(sql, [value])
}

} // verus!
