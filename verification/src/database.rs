//! The calls into the database engine.

use crate::error::{BuildError, ErrorKind};
use rusqlite::{Connection, Statement};
use vstd::prelude::*;

verus! {

/// `rusqlite::Connection`, a connection to a database; nothing is known of
/// what it holds.
#[verifier::external_type_specification]
#[verifier::external_body]
pub struct ExConnection(Connection);

/// `rusqlite::Statement`, a statement that a connection has prepared.
#[verifier::external_type_specification]
#[verifier::external_body]
pub struct ExStatement<'conn>(Statement<'conn>);

/// `rusqlite::Error`, the error of a call into the database.
#[verifier::external_type_specification]
#[verifier::external_body]
pub struct ExSqlError(rusqlite::Error);

/// The value that is stored for one CSV field.
#[derive(Clone, Debug)]
pub enum CellValue {
    Null,
    Text(String),
}

impl View for CellValue {
    type V = Option<Seq<char>>;

    open spec fn view(&self) -> Option<Seq<char>> {
        match self {
            CellValue::Null => None,
            CellValue::Text(text) => Some(text@),
        }
    }
}

impl CellValue {
    /// The text of the cell, nothing for NULL.
    pub fn text(&self) -> (r: Option<&str>)
        ensures
            r is Some <==> self@ is Some,
            r is Some ==> r->Some_0@ == self@->Some_0,
    {
        match self {
            CellValue::Null => None,
            CellValue::Text(text) => Some(text.as_str()),
        }
    }
}

/// Calls `Connection::execute_batch` of `rusqlite`, which runs the statements
/// of `sql` in turn. Whether it succeeds is for the database to say.
#[verifier::external_body]
pub(crate) fn execute_batch(conn: &Connection, sql: &str) -> (r: Result<(), rusqlite::Error>) {
    conn.execute_batch(sql)
}

/// Calls `Connection::prepare` of `rusqlite`. Whether it succeeds is for the
/// database to say.
#[verifier::external_body]
pub(crate) fn prepare<'conn>(conn: &'conn Connection, sql: &str) -> (r: Result<
    Statement<'conn>,
    rusqlite::Error,
>) {
    conn.prepare(sql)
}

/// Calls `Statement::insert` of `rusqlite` with the cells as the statement's
/// parameters, in order, NULL for a cell without text. Whether it succeeds is
/// for the database to say.
#[verifier::external_body]
pub(crate) fn insert_row(stmt: &mut Statement<'_>, cells: &Vec<CellValue>) -> (r: Result<
    i64,
    rusqlite::Error,
>) {
    stmt.insert(rusqlite::params_from_iter(cells.iter().map(|cell| cell.text())))
}

/// The text of a `rusqlite::Error`, as its `Display` gives it.
#[verifier::external_body]
fn sql_error_text(e: &rusqlite::Error) -> (text: String) {
    format!("{e}")
}

/// The database error that stands for an error of the engine.
pub fn database_error(e: &rusqlite::Error) -> (r: BuildError)
    ensures
        r.kind == ErrorKind::Database,
{
    BuildError::new(ErrorKind::Database, sql_error_text(e))
}

} // verus!
