//! The plain hit counter: one stored number that every request raises by
//! one, whoever sends it.

use crate::engine::{describe, execute, execute_with_integer, open_connection, query_integer};
use crate::statements::{no_parameters, Statement};
use crate::store::{applied, begin, counted, finish, opened, seed_if_due, written, StoreError};
use vstd::prelude::*;
use vstd::string::*;

verus! {

/// A handle on the stored number.
pub struct HitCounter {
    conn: rusqlite::Connection,
}

/// The number after `current`; none where `current` is the largest there is.
pub open spec fn next_value(current: i64) -> Option<i64> {
    if current < i64::MAX {
        Some((current + 1) as i64)
    } else {
        None
    }
}

/// The number that a request writes, given the number it found.
pub fn bumped(current: i64) -> (r: Option<i64>)
    ensures
        r == next_value(current),
{
    if current < i64::MAX {
        Some(current + 1)
    } else {
        None
    }
}

/// What reading the stored number gives: the number to write next, a `Read`
/// error where it could not be read, a `Write` error where it cannot go
/// higher.
pub fn advanced(outcome: Result<i64, rusqlite::Error>) -> (r: Result<i64, StoreError>)
    ensures
        match outcome {
            Ok(current) => match next_value(current) {
                Some(next) => r == Ok::<i64, StoreError>(next),
                None => r matches Err(e) && e is Write,
            },
            Err(_) => r matches Err(e) && e is Read,
        },
{
    match outcome {
        Ok(current) => match bumped(current) {
            Some(next) => Ok(next),
            None => Err(StoreError::Write("integer overflow".to_owned())),
        },
        Err(e) => Err(StoreError::Read(describe(&e))),
    }
}

/// Opens the counter at `path` and makes sure that its table and its one
/// row exist. The row is written only where the table is empty, so a number
/// that is there is kept. Any failure is an `Init` error.
pub fn init_db(path: &str) -> (r: Result<HitCounter, StoreError>)
    ensures
        r matches Err(e) ==> e is Init,
{
    let conn = match opened(open_connection(path)) {
        Ok(conn) => conn,
        Err(e) => {
            return Err(e);
        },
    };
    let none = no_parameters();
    match applied(execute(&conn, Statement::CreateCounter.text(), &none)) {
        Ok(_) => {},
        Err(e) => {
            return Err(e);
        },
    }
    let due: bool = match counted(query_integer(&conn, Statement::CountCounterRows.text())) {
        Ok(due) => due,
        Err(e) => {
            return Err(e);
        },
    };
    match seed_if_due(&conn, due, Statement::SeedCounter) {
        Ok(_) => Ok(HitCounter { conn }),
        Err(e) => Err(e),
    }
}

/// Raises the stored number by one and returns the new number. The number
/// is read, raised and written in one transaction, which is rolled back on
/// any failure. A number that comes back is one more than a number that the
/// store held.
pub fn increment_counter(counter: &HitCounter) -> (r: Result<i64, StoreError>)
    ensures
        r matches Err(e) ==> e is Write || e is Read,
        r matches Ok(n) ==> n > i64::MIN && exists|current: i64| next_value(current) == Some(n),
{
    match begin(&counter.conn) {
        Ok(_) => {},
        Err(e) => {
            return Err(e);
        },
    }
    let next = advanced(query_integer(&counter.conn, Statement::ReadCounter.text()));
    let work = write_next(&counter.conn, next);
    finish(&counter.conn, work)
}

/// The write of a request: stores the number that the read calls for. A
/// failed read is handed on as it is, and nothing is written.
fn write_next(conn: &rusqlite::Connection, next: Result<i64, StoreError>) -> (r: Result<
    i64,
    StoreError,
>)
    ensures
        next is Err ==> r is Err && r->Err_0 == next->Err_0,
        r is Ok ==> r == next,
        r matches Err(e) ==> (next is Err && next->Err_0 == e) || (next is Ok && e is Write),
{
    match next {
        Ok(value) => stored(value, execute_with_integer(conn, Statement::WriteCounter.text(), value)),
        Err(e) => Err(e),
    }
}

/// What writing the number `value` gives: the number, or the reason why it
/// could not be written.
pub fn stored(value: i64, outcome: Result<usize, rusqlite::Error>) -> (r: Result<i64, StoreError>)
    ensures
        match outcome {
            Ok(_) => r == Ok::<i64, StoreError>(value),
            Err(_) => r matches Err(e) && e is Write,
        },
{
    match written(outcome) {
        Ok(_) => Ok(value),
        Err(e) => Err(e),
    }
}

} // verus!
