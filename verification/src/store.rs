//! The record store: a single SQLite database file holding one table `file`
//! with columns `id` (integer primary key), `hash`, `size`, `password` and
//! `time_created` (all text, not null). Records are append-only; lookup is by
//! the identity pair (hash, size) and returns matches in insertion order
//! (ascending id).

use vstd::prelude::*;

verus! {

#[verifier::external_type_specification]
#[verifier::external_body]
pub struct ExConnection(rusqlite::Connection);

#[verifier::external_type_specification]
#[verifier::external_body]
pub struct ExSqlError(rusqlite::Error);

/// One persisted record: a password saved under the identity pair
/// (hash, size), with the assigned id and the creation moment.
pub struct FileRecord {
    pub id: i64,
    pub hash: String,
    pub size: String,
    pub password: String,
    pub time_created: String,
}

/// One record as handed to the store, before an id is assigned: the identity
/// pair, the password verbatim, and the creation moment's text.
#[derive(Debug, PartialEq, Eq)]
pub struct NewRecord {
    pub hash: String,
    pub size: String,
    pub password: String,
    pub time_created: String,
}

/// What can go wrong at the store, by phase: the database file cannot be
/// opened or its schema ensured; a lookup failed; an append failed.
#[derive(Clone, Copy, Debug, PartialEq, Eq, Structural)]
pub enum StoreError {
    Unavailable,
    ReadFailure,
    WriteFailure,
}

/// Relies on rusqlite::Connection::open: opens or creates the database file
/// at `path` (the path `:memory:` names a fresh in-memory database).
#[verifier::external_body]
fn open_connection(path: &str) -> (r: Result<rusqlite::Connection, rusqlite::Error>)
{
    rusqlite::Connection::open(path)
}

/// Relies on rusqlite::Connection::execute and SQLite's CREATE TABLE IF NOT
/// EXISTS: ensures the `file` table exists; an existing table and its rows
/// are left as they are.
#[verifier::external_body]
fn create_schema(conn: &rusqlite::Connection) -> (r: Result<(), rusqlite::Error>)
{
    conn.execute(
        "CREATE TABLE IF NOT EXISTS file (
            id INTEGER PRIMARY KEY,
            hash TEXT NOT NULL,
            size TEXT NOT NULL,
            password TEXT NOT NULL,
            time_created TEXT NOT NULL
            )",
        (),
    )?;
    Ok(())
}

/// Relies on rusqlite::Connection::execute and last_insert_rowid: appends one
/// row with the given column values and returns the rowid SQLite assigned to
/// it as `id`.
#[verifier::external_body]
fn insert_row(
    conn: &rusqlite::Connection,
    hash: &str,
    size: &str,
    password: &str,
    time_created: &str,
) -> (r: Result<i64, rusqlite::Error>)
{
    conn.execute(
        "INSERT INTO file (hash, size, password, time_created) VALUES (?1, ?2, ?3, ?4)",
        (hash, size, password, time_created),
    )?;
    Ok(conn.last_insert_rowid())
}

/// Relies on rusqlite::Connection::prepare, Statement::query_map and SQLite's
/// SELECT ... WHERE hash = ?1 AND size = ?2 ORDER BY id ASC: every returned
/// row carries exactly the given hash and size, and rows come in strictly
/// ascending id order. Strictness rests on the `file` table carrying the
/// declared schema, under which `id` is the integer primary key, hence
/// unique; that schema is part of the store file's contract.
#[verifier::external_body]
fn query_rows(
    conn: &rusqlite::Connection,
    hash: &str,
    size: &str,
) -> (r: Result<Vec<(i64, String, String, String, String)>, rusqlite::Error>)
    ensures
        r matches Ok(rows) ==> forall|i: int|
            0 <= i < rows@.len() ==> (#[trigger] rows@[i]).1@ == hash@ && rows@[i].2@ == size@,
        r matches Ok(rows) ==> forall|i: int, j: int|
            0 <= i < j < rows@.len() ==> (#[trigger] rows@[i]).0 < (#[trigger] rows@[j]).0,
{
    let mut stmt = conn.prepare(
        "SELECT id, hash, size, password, time_created FROM file
         WHERE hash = ?1 AND size = ?2 ORDER BY id ASC",
    )?;
    let mapped = stmt.query_map((hash, size), |row| {
        Ok((row.get(0)?, row.get(1)?, row.get(2)?, row.get(3)?, row.get(4)?))
    })?;
    mapped.collect()
}

/// A handle on the opened store, schema ensured.
pub struct Store {
    conn: rusqlite::Connection,
}

impl Store {
    /// Opens or creates the store file at `path` and ensures the schema
    /// exists (idempotent: existing rows are kept). Every failure here is
    /// `StoreError::Unavailable`.
    pub fn open(path: &str) -> (r: Result<Store, StoreError>)
        ensures
            r matches Err(e) ==> e == StoreError::Unavailable,
    {
        match open_connection(path) {
            Ok(conn) => match create_schema(&conn) {
                Ok(()) => Ok(Store { conn }),
                Err(_) => Err(StoreError::Unavailable),
            },
            Err(_) => Err(StoreError::Unavailable),
        }
    }

    /// Appends the given record, column for column, and returns the id the
    /// store assigned. Every failure here is `StoreError::WriteFailure`.
    pub fn insert(&self, rec: &NewRecord) -> (r: Result<i64, StoreError>)
        ensures
            r matches Err(e) ==> e == StoreError::WriteFailure,
    {
        match insert_row(
            &self.conn,
            rec.hash.as_str(),
            rec.size.as_str(),
            rec.password.as_str(),
            rec.time_created.as_str(),
        ) {
            Ok(id) => Ok(id),
            Err(_) => Err(StoreError::WriteFailure),
        }
    }

    /// Returns every record whose identity pair equals (`hash`, `size`), in
    /// insertion order: ids strictly ascending, each record carrying exactly
    /// the asked-for hash and size, and all five columns taken from the
    /// returned rows, field for field, by `records_of_rows`. Every failure
    /// here is `StoreError::ReadFailure`.
    pub fn find_by_identity(&self, hash: &str, size: &str) -> (r: Result<
        Vec<FileRecord>,
        StoreError,
    >)
        ensures
            r matches Ok(recs) ==> forall|i: int|
                0 <= i < recs@.len() ==> (#[trigger] recs@[i]).hash@ == hash@
                    && recs@[i].size@ == size@,
            r matches Ok(recs) ==> forall|i: int, j: int|
                0 <= i < j < recs@.len() ==> (#[trigger] recs@[i]).id < (#[trigger] recs@[j]).id,
            r matches Err(e) ==> e == StoreError::ReadFailure,
    {
        let rows = match query_rows(&self.conn, hash, size) {
            Ok(rows) => rows,
            Err(_) => {
                return Err(StoreError::ReadFailure);
            },
        };
        let recs = records_of_rows(&rows);
        Ok(recs)
    }
}

/// Turns raw store rows into records: one record per row, each field copied
/// from its column — id, hash, size, password and creation moment, verbatim.
pub fn records_of_rows(rows: &Vec<(i64, String, String, String, String)>) -> (r: Vec<FileRecord>)
    ensures
        r@.len() == rows@.len(),
        forall|k: int|
            0 <= k < rows@.len() ==> (#[trigger] r@[k]).id == rows@[k].0
                && r@[k].hash@ == rows@[k].1@ && r@[k].size@ == rows@[k].2@
                && r@[k].password@ == rows@[k].3@ && r@[k].time_created@ == rows@[k].4@,
{
    let mut recs: Vec<FileRecord> = Vec::new();
    let mut i: usize = 0;
    while i < rows.len()
        invariant
            i <= rows@.len(),
            recs@.len() == i,
            forall|k: int|
                0 <= k < i ==> (#[trigger] recs@[k]).id == rows@[k].0
                    && recs@[k].hash@ == rows@[k].1@ && recs@[k].size@ == rows@[k].2@
                    && recs@[k].password@ == rows@[k].3@ && recs@[k].time_created@ == rows@[k].4@,
        decreases rows@.len() - i,
    {
        let row = &rows[i];
        recs.push(
            FileRecord {
                id: row.0,
                hash: row.1.clone(),
                size: row.2.clone(),
                password: row.3.clone(),
                time_created: row.4.clone(),
            },
        );
        i = i + 1;
    }
    recs
}

} // verus!
