//! The durable store: one row per identifier seen, and one row that holds how
//! many there are.

use crate::engine::{describe, execute, open_connection, query_integer};
use crate::statements::{insert_parameters, no_parameters, Statement};
use vstd::string::*;
use vstd::prelude::*;

verus! {

/// Why the store could not do what was asked, with the engine's own words.
#[derive(Debug, PartialEq, Eq)]
pub enum StoreError {
    /// The file or the schema could not be prepared.
    Init(String),
    /// A statement that changes the store failed.
    Write(String),
    /// The count could not be read back.
    Read(String),
}

impl StoreError {
    /// The engine's words for what went wrong.
    pub open spec fn detail(self) -> Seq<char> {
        match self {
            StoreError::Init(text) => text@,
            StoreError::Write(text) => text@,
            StoreError::Read(text) => text@,
        }
    }

    /// The engine's words for what went wrong.
    pub fn message(&self) -> (r: &str)
        ensures
            r@ == self.detail(),
    {
        match self {
            StoreError::Init(text) => text.as_str(),
            StoreError::Write(text) => text.as_str(),
            StoreError::Read(text) => text.as_str(),
        }
    }
}

/// A handle on the store.
pub struct Db {
    conn: rusqlite::Connection,
}

/// Whether the count has to go up after an insert that changed `inserted`
/// rows.
pub open spec fn increment_due(inserted: nat) -> bool {
    inserted > 0
}

/// Whether the count row has to be written, given how many count rows there
/// are.
pub open spec fn seed_due(rows: int) -> bool {
    rows == 0
}

/// The count that a stored integer stands for: the integer itself. A
/// negative integer, or one that a machine word cannot hold, stands for
/// none.
pub open spec fn count_of(raw: i64) -> Option<usize> {
    if 0 <= raw <= usize::MAX {
        Some(raw as usize)
    } else {
        None
    }
}

/// Whether the count has to go up after an insert that changed `inserted`
/// rows: only a new identifier counts.
pub fn needs_increment(inserted: usize) -> (r: bool)
    ensures
        r == increment_due(inserted as nat),
{
    inserted > 0
}

/// Whether the count row is still to be written: only an empty table is
/// seeded, so a count that exists is never set back.
pub fn needs_seed(rows: i64) -> (r: bool)
    ensures
        r == seed_due(rows as int),
{
    rows == 0
}

/// What the first step of opening a store gives: the connection, or the
/// reason why there is none.
pub fn opened(outcome: Result<rusqlite::Connection, rusqlite::Error>) -> (r: Result<
    rusqlite::Connection,
    StoreError,
>)
    ensures
        match outcome {
            Ok(conn) => r == Ok::<rusqlite::Connection, StoreError>(conn),
            Err(_) => r matches Err(e) && e is Init,
        },
{
    match outcome {
        Ok(conn) => Ok(conn),
        Err(e) => Err(StoreError::Init(describe(&e))),
    }
}

/// What a statement of the schema gives: nothing, or the reason why the
/// schema could not be applied.
pub fn applied(outcome: Result<usize, rusqlite::Error>) -> (r: Result<(), StoreError>)
    ensures
        outcome is Ok <==> r is Ok,
        r matches Err(e) ==> e is Init,
{
    match outcome {
        Ok(_) => Ok(()),
        Err(e) => Err(StoreError::Init(describe(&e))),
    }
}

/// What counting the rows of a table at start-up gives: whether the table
/// is still to be seeded, or the reason why it could not be counted.
pub fn counted(outcome: Result<i64, rusqlite::Error>) -> (r: Result<bool, StoreError>)
    ensures
        match outcome {
            Ok(rows) => r == Ok::<bool, StoreError>(seed_due(rows as int)),
            Err(_) => r matches Err(e) && e is Init,
        },
{
    match outcome {
        Ok(rows) => Ok(needs_seed(rows)),
        Err(e) => Err(StoreError::Init(describe(&e))),
    }
}

/// What a statement that changes the store gives: the number of rows it
/// changed, or the reason why it failed.
pub fn written(outcome: Result<usize, rusqlite::Error>) -> (r: Result<usize, StoreError>)
    ensures
        match outcome {
            Ok(rows) => r == Ok::<usize, StoreError>(rows),
            Err(_) => r matches Err(e) && e is Write,
        },
{
    match outcome {
        Ok(rows) => Ok(rows),
        Err(e) => Err(StoreError::Write(describe(&e))),
    }
}

/// What the insert of an identifier gives: whether the count has to go
/// up, or the reason why the insert failed.
pub fn after_insert(outcome: Result<usize, rusqlite::Error>) -> (r: Result<bool, StoreError>)
    ensures
        match outcome {
            Ok(rows) => r == Ok::<bool, StoreError>(increment_due(rows as nat)),
            Err(_) => r matches Err(e) && e is Write,
        },
{
    match written(outcome) {
        Ok(rows) => Ok(needs_increment(rows)),
        Err(e) => Err(e),
    }
}

/// What reading the count row gives: the count, or the reason why there is
/// none. A row that holds no count is as unreadable as a row that is
/// missing.
pub fn read_back(outcome: Result<i64, rusqlite::Error>) -> (r: Result<usize, StoreError>)
    ensures
        match outcome {
            Ok(raw) => match count_of(raw) {
                Some(count) => r == Ok::<usize, StoreError>(count),
                None => r matches Err(e) && e is Read,
            },
            Err(_) => r matches Err(e) && e is Read,
        },
{
    match outcome {
        Ok(raw) => {
            if raw < 0 {
                return Err(StoreError::Read("integer out of range".to_owned()));
            }
            let wide: u64 = raw as u64;
            if wide <= usize::MAX as u64 {
                Ok(wide as usize)
            } else {
                Err(StoreError::Read("integer out of range".to_owned()))
            }
        },
        Err(e) => Err(StoreError::Read(describe(&e))),
    }
}

/// How a transaction ends: with what the statements gave where all of them
/// and the commit went through, else with the first failure.
pub fn concluded<T>(work: Result<T, StoreError>, commit: Result<usize, StoreError>) -> (r: Result<
    T,
    StoreError,
>)
    ensures
        r == match work {
            Ok(value) => match commit {
                Ok(_) => Ok::<T, StoreError>(value),
                Err(e) => Err(e),
            },
            Err(e) => Err(e),
        },
{
    match work {
        Ok(value) => match commit {
            Ok(_) => Ok(value),
            Err(e) => Err(e),
        },
        Err(e) => Err(e),
    }
}

/// Opens a transaction that holds the write lock from its start, so that
/// two of them never interleave.
pub(crate) fn begin(conn: &rusqlite::Connection) -> (r: Result<(), StoreError>)
    ensures
        r matches Err(e) ==> e is Write,
{
    let none = no_parameters();
    match written(execute(conn, Statement::Begin.text(), &none)) {
        Ok(_) => Ok(()),
        Err(e) => Err(e),
    }
}

/// Ends the open transaction: commits where `work` succeeded, and rolls
/// back where `work` or the commit failed. What `work` gave is handed on as
/// it is, but for a failed commit, which is a `Write` error.
pub(crate) fn finish<T>(conn: &rusqlite::Connection, work: Result<T, StoreError>) -> (r: Result<
    T,
    StoreError,
>)
    ensures
        work is Err ==> r == work,
        r is Ok ==> r == work,
        r matches Err(e) ==> work == r || e is Write,
{
    let none = no_parameters();
    let r = if work.is_ok() {
        concluded(work, written(execute(conn, Statement::Commit.text(), &none)))
    } else {
        work
    };
    if r.is_err() {
        let _ = execute(conn, Statement::Rollback.text(), &none);
    }
    r
}

/// Writes a first row with `seed` where one is due. Where none is due the
/// engine is not asked, and nothing can fail.
pub(crate) fn seed_if_due(conn: &rusqlite::Connection, due: bool, seed: Statement) -> (r: Result<
    (),
    StoreError,
>)
    ensures
        !due ==> r is Ok,
        r matches Err(e) ==> e is Init,
{
    if due {
        let none = no_parameters();
        applied(execute(conn, seed.text(), &none))
    } else {
        Ok(())
    }
}

impl Db {
    /// Opens the store at `db_path` and makes sure that its two tables and
    /// the count row exist. The count row is written only where the count
    /// table is empty, so a store that already holds a count keeps it. Any
    /// failure is an `Init` error.
    pub fn new(db_path: &str) -> (r: Result<Db, StoreError>)
        ensures
            r matches Err(e) ==> e is Init,
    {
        let conn = match opened(open_connection(db_path)) {
            Ok(conn) => conn,
            Err(e) => {
                return Err(e);
            },
        };
        let none = no_parameters();
        match applied(execute(&conn, Statement::CreateVisitors.text(), &none)) {
            Ok(_) => {},
            Err(e) => {
                return Err(e);
            },
        }
        match applied(execute(&conn, Statement::CreateVisitorCount.text(), &none)) {
            Ok(_) => {},
            Err(e) => {
                return Err(e);
            },
        }
        let due: bool = match counted(
            query_integer(&conn, Statement::CountVisitorCountRows.text()),
        ) {
            Ok(due) => due,
            Err(e) => {
                return Err(e);
            },
        };
        match seed_if_due(&conn, due, Statement::SeedVisitorCount) {
            Ok(_) => Ok(Db { conn }),
            Err(e) => Err(e),
        }
    }

    /// Records a visit from `ip` and returns the number of distinct
    /// identifiers seen. The identifier is inserted unless it is there
    /// already; the count goes up only where a row was inserted; the count
    /// is then read. All of it happens in one transaction, which is rolled
    /// back on any failure. A count that comes back is one that the store
    /// held.
    pub fn visit(&self, ip: &str) -> (r: Result<usize, StoreError>)
        ensures
            r matches Err(e) ==> e is Write || e is Read,
            r matches Ok(n) ==> exists|raw: i64| count_of(raw) == Some(n),
    {
        match begin(&self.conn) {
            Ok(_) => {},
            Err(e) => {
                return Err(e);
            },
        }
        let params = insert_parameters(ip);
        let due = after_insert(execute(&self.conn, Statement::InsertVisitor.text(), &params));
        let raised = self.raise_if_due(due);
        let work = self.read_after(raised);
        finish(&self.conn, work)
    }

    /// The second write of a visit: raises the count where the insert says
    /// that it is due. Where none is due the engine is not asked and nothing
    /// can fail; a failed insert is handed on as it is.
    fn raise_if_due(&self, due: Result<bool, StoreError>) -> (r: Result<(), StoreError>)
        ensures
            due matches Ok(false) ==> r is Ok,
            due is Err ==> r is Err && r->Err_0 == due->Err_0,
            r matches Err(e) ==> (due is Err && due->Err_0 == e) || (due matches Ok(true)
                && e is Write),
    {
        match due {
            Ok(true) => self.increment_unique_count(),
            Ok(false) => Ok(()),
            Err(e) => Err(e),
        }
    }

    /// The last step of a visit: reads the count where the writes went
    /// through. A failed write is handed on as it is, and nothing is read.
    fn read_after(&self, written: Result<(), StoreError>) -> (r: Result<usize, StoreError>)
        ensures
            written is Err ==> r is Err && r->Err_0 == written->Err_0,
            r matches Err(e) ==> (written is Err && written->Err_0 == e) || (written is Ok
                && e is Read),
            r matches Ok(n) ==> exists|raw: i64| count_of(raw) == Some(n),
    {
        match written {
            Ok(_) => self.unique_count(),
            Err(e) => Err(e),
        }
    }

    /// Raises the stored count by one.
    fn increment_unique_count(&self) -> (r: Result<(), StoreError>)
        ensures
            r matches Err(e) ==> e is Write,
    {
        let none = no_parameters();
        match written(execute(&self.conn, Statement::RaiseVisitorCount.text(), &none)) {
            Ok(_) => Ok(()),
            Err(e) => Err(e),
        }
    }

    /// The number of distinct identifiers seen, as the count row holds it.
    /// A row that is missing or holds no count is a `Read` error.
    pub fn unique_count(&self) -> (r: Result<usize, StoreError>)
        ensures
            r matches Err(e) ==> e is Read,
            r matches Ok(n) ==> exists|raw: i64| count_of(raw) == Some(n),
    {
        read_back(query_integer(&self.conn, Statement::ReadVisitorCount.text()))
    }
}

} // verus!
