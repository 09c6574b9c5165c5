//! The calls into `rusqlite`. What a call returns depends on the file that
//! the browser owns, so the wrappers promise nothing about it: the library's
//! contracts hold for whatever comes back. Their bodies only make the call
//! and move its columns into the library's row types.

use crate::domain::{DomainRow, InfoRow};
use crate::lookup::Lookup;
use rusqlite::{Connection, OpenFlags, Statement};
use vstd::prelude::*;

verus! {

/// `rusqlite::Connection`: an open database handle, opaque to the proofs.
#[verifier::external_type_specification]
#[verifier::external_body]
pub struct ExConnection(rusqlite::Connection);

/// `rusqlite::Statement`: a compiled query that borrows its connection.
#[verifier::external_type_specification]
#[verifier::external_body]
pub struct ExStatement<'conn>(rusqlite::Statement<'conn>);

/// `rusqlite::Error`: why a call into the database failed.
#[verifier::external_type_specification]
#[verifier::external_body]
pub struct ExSqliteError(rusqlite::Error);

/// `Connection::open_with_flags` with the read-only flag in place of the
/// read-write and create flags of `Connection::open`. Whether the file opens
/// is the file system's answer, so nothing is claimed of the result.
#[verifier::external_body]
pub(crate) fn open_read_only(path: &str) -> (opened: Result<Connection, rusqlite::Error>) {
    Connection::open_with_flags(
        path,
        OpenFlags::SQLITE_OPEN_READ_ONLY | OpenFlags::SQLITE_OPEN_NO_MUTEX
            | OpenFlags::SQLITE_OPEN_URI,
    )
}

/// `Connection::prepare`: compiles `sql` against the schema of the open
/// store. Nothing is claimed of the result.
#[verifier::external_body]
pub(crate) fn prepare<'conn>(connection: &'conn Connection, sql: &str) -> (compiled: Result<
    Statement<'conn>,
    rusqlite::Error,
>) {
    connection.prepare(sql)
}

/// `Statement::query_map` without parameters, reading an integer and a text
/// column from each row. The rows come in the order in which the database
/// steps through them; a row with a column that does not decode is handed
/// out as `None` in its place, and a failure to bind or to step ends the
/// read with the error. Nothing is claimed of the result.
#[verifier::external_body]
pub(crate) fn domain_rows(statement: &mut Statement<'_>) -> (rows: Result<
    Vec<Option<DomainRow>>,
    rusqlite::Error,
>) {
    let rows = statement.query_map(
        rusqlite::NO_PARAMS,
        |row|
            Ok(
                match (row.get(0), row.get(1)) {
                    (Ok(id), Ok(name)) => Some(DomainRow { id, name }),
                    _ => None,
                },
            ),
    )?;
    rows.collect()
}

/// `Connection::query_row` with one text parameter, reading an integer and a
/// text column from the first row. Nothing is claimed of the result.
#[verifier::external_body]
pub(crate) fn domain_by_name(connection: &Connection, sql: &str, name: &str) -> (row: Result<
    DomainRow,
    rusqlite::Error,
>) {
    connection.query_row(sql, [name], |row| Ok(DomainRow { id: row.get(0)?, name: row.get(1)? }))
}

/// `Connection::query_row` with one integer parameter, reading two flags and
/// two 32-bit counters from the first row. Nothing is claimed of the result.
#[verifier::external_body]
pub(crate) fn info_by_id(connection: &Connection, sql: &str, id: i64) -> (row: Result<
    InfoRow,
    rusqlite::Error,
>) {
    connection.query_row(
        sql,
        [id],
        |row|
            Ok(
                InfoRow {
                    prevalent: row.get(0)?,
                    very_prevalent: row.get(1)?,
                    first_party_interaction: row.get(2)?,
                    first_party_store_access: row.get(3)?,
                },
            ),
    )
}

/// `Connection::query_row` with integer parameters, reading one 32-bit
/// integer from the first row. Nothing is claimed of the result.
#[verifier::external_body]
pub(crate) fn query_count(connection: &Connection, sql: &str, keys: &Vec<i64>) -> (count: Result<
    i32,
    rusqlite::Error,
>) {
    connection.query_row(sql, keys.iter(), |row| row.get(0))
}

/// Tells `rusqlite::Error::QueryReturnedNoRows` from the other variants.
#[verifier::external_body]
pub(crate) fn is_no_rows(error: &rusqlite::Error) -> (no_rows: bool) {
    match error {
        rusqlite::Error::QueryReturnedNoRows => true,
        _ => false,
    }
}

/// The outcome of a single-row read as the library's own data: the row where
/// there is one, else whether the query matched nothing or did not run.
pub(crate) fn lookup_of<T>(outcome: Result<T, rusqlite::Error>) -> (lookup: Lookup<T>)
    ensures
        outcome matches Ok(row) ==> lookup == Lookup::Found(row),
        outcome is Err ==> !(lookup is Found),
{
    match outcome {
        Ok(row) => Lookup::Found(row),
        Err(error) => if is_no_rows(&error) {
            Lookup::Missing
        } else {
            Lookup::Failed
        },
    }
}

} // verus!
