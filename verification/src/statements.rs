//! The statements that the library hands to the SQL engine, and the
//! parameters that go with them.

use vstd::prelude::*;
use vstd::string::*;

verus! {

/// A statement of the library.
#[derive(Debug, Clone, Copy, PartialEq, Eq)]
pub enum Statement {
    /// Makes the table of identifiers, unless it is there.
    CreateVisitors,
    /// Makes the table of the count, unless it is there.
    CreateVisitorCount,
    /// Counts the rows of the count table.
    CountVisitorCountRows,
    /// Writes the count row, with zero.
    SeedVisitorCount,
    /// Inserts one identifier, unless it is there.
    InsertVisitor,
    /// Raises the count by one.
    RaiseVisitorCount,
    /// Reads the count.
    ReadVisitorCount,
    /// Makes the table of the plain counter, unless it is there.
    CreateCounter,
    /// Counts the rows of the plain counter's table.
    CountCounterRows,
    /// Writes the plain counter's row, with zero.
    SeedCounter,
    /// Reads the plain counter.
    ReadCounter,
    /// Writes the plain counter.
    WriteCounter,
    /// Opens a transaction that holds the write lock from its start.
    Begin,
    /// Makes the open transaction durable.
    Commit,
    /// Undoes the open transaction.
    Rollback,
}

impl Statement {
    /// The text of the statement, as the engine gets it.
    pub open spec fn sql(self) -> Seq<char> {
        match self {
            Statement::CreateVisitors => "CREATE TABLE IF NOT EXISTS visitors (ip TEXT NOT NULL UNIQUE)"@,
            Statement::CreateVisitorCount => "CREATE TABLE IF NOT EXISTS visitor_count (count INTEGER DEFAULT 0)"@,
            Statement::CountVisitorCountRows => "SELECT COUNT(*) FROM visitor_count"@,
            Statement::SeedVisitorCount => "INSERT INTO visitor_count (count) VALUES (0)"@,
            Statement::InsertVisitor => "INSERT OR IGNORE INTO visitors (ip) VALUES (?)"@,
            Statement::RaiseVisitorCount => "UPDATE visitor_count SET count = count + 1"@,
            Statement::ReadVisitorCount => "SELECT count FROM visitor_count"@,
            Statement::CreateCounter => "CREATE TABLE IF NOT EXISTS counter (value INTEGER NOT NULL)"@,
            Statement::CountCounterRows => "SELECT COUNT(*) FROM counter"@,
            Statement::SeedCounter => "INSERT INTO counter (value) VALUES (0)"@,
            Statement::ReadCounter => "SELECT value FROM counter"@,
            Statement::WriteCounter => "UPDATE counter SET value = ?"@,
            Statement::Begin => "BEGIN IMMEDIATE"@,
            Statement::Commit => "COMMIT"@,
            Statement::Rollback => "ROLLBACK"@,
        }
    }

    /// The text of the statement, as the engine gets it.
    pub fn text(self) -> (r: &'static str)
        ensures
            r@ == self.sql(),
    {
        match self {
            Statement::CreateVisitors => "CREATE TABLE IF NOT EXISTS visitors (ip TEXT NOT NULL UNIQUE)",
            Statement::CreateVisitorCount => "CREATE TABLE IF NOT EXISTS visitor_count (count INTEGER DEFAULT 0)",
            Statement::CountVisitorCountRows => "SELECT COUNT(*) FROM visitor_count",
            Statement::SeedVisitorCount => "INSERT INTO visitor_count (count) VALUES (0)",
            Statement::InsertVisitor => "INSERT OR IGNORE INTO visitors (ip) VALUES (?)",
            Statement::RaiseVisitorCount => "UPDATE visitor_count SET count = count + 1",
            Statement::ReadVisitorCount => "SELECT count FROM visitor_count",
            Statement::CreateCounter => "CREATE TABLE IF NOT EXISTS counter (value INTEGER NOT NULL)",
            Statement::CountCounterRows => "SELECT COUNT(*) FROM counter",
            Statement::SeedCounter => "INSERT INTO counter (value) VALUES (0)",
            Statement::ReadCounter => "SELECT value FROM counter",
            Statement::WriteCounter => "UPDATE counter SET value = ?",
            Statement::Begin => "BEGIN IMMEDIATE",
            Statement::Commit => "COMMIT",
            Statement::Rollback => "ROLLBACK",
        }
    }
}

/// The parameters of a statement that takes none.
pub fn no_parameters() -> (r: Vec<String>)
    ensures
        r@.len() == 0,
{
    Vec::new()
}

/// The parameters of the insert of an identifier: the identifier as it
/// stands, and nothing else.
pub fn insert_parameters(ip: &str) -> (r: Vec<String>)
    ensures
        r@.len() == 1,
        r@[0]@ == ip@,
{
    let mut params: Vec<String> = Vec::new();
    params.push(ip.to_owned());
    params
}

} // verus!
