//! Creating tables in a database and loading them, lookup tables first.

use crate::database::{database_error, execute_batch, prepare};
use crate::error::{BuildError, ErrorKind};
use crate::init::{table_outcome, unreadable, well_formed, InitFailure, TableSource};
use crate::loader::{load_outcome, load_rows, plan_load, LoadFailure};
use crate::records::{csv_header, csv_rows};
use crate::template::{ddl_subs, render_ddl, render_spec};
use rusqlite::Connection;
use vstd::prelude::*;

verus! {

/// A database in which tables can be created and loaded.
pub trait NewDB {
    /// The connection through which the database is reached.
    fn connection(&self) -> &Connection;

    /// Creates a table: renders its DDL from the template, with the table's
    /// name and the type of its primary key, and has the database execute it.
    /// Fails with a template error exactly where the template does not render;
    /// else the database decides.
    fn create_table(&self, name: &str, pk_type: &str, ddl_template: &str) -> (r: Result<
        (),
        BuildError,
    >)
        ensures
            render_spec(ddl_template@, ddl_subs(name@, pk_type@)) is None ==> r is Err
                && r->Err_0.kind == ErrorKind::Template,
            render_spec(ddl_template@, ddl_subs(name@, pk_type@)) is Some ==> r is Ok
                || r->Err_0.kind == ErrorKind::Database,
    {
        let ddl = match render_ddl(ddl_template, name, pk_type) {
            Ok(ddl) => ddl,
            Err(e) => {
                return Err(e);
            },
        };
        match execute_batch(self.connection(), ddl.as_str()) {
            Ok(_) => Ok(()),
            Err(e) => Err(database_error(&e)),
        }
    }

    /// Loads the rows of the CSV data into the named table and returns how
    /// many were inserted. The columns are those of the header, in its order.
    /// Data whose header has no column loads nothing and touches no table.
    fn load_data(&self, name: &str, data: &[u8]) -> (r: Result<usize, LoadFailure>)
        ensures
            load_outcome(r, csv_header(data@), csv_rows(data@)),
    {
        let plan = match plan_load(name, data) {
            Ok(Some(plan)) => plan,
            Ok(None) => {
                return Ok(0);
            },
            Err(e) => {
                return Err(LoadFailure { error: e, rows_loaded: 0, row: String::new() });
            },
        };
        let mut stmt = match prepare(self.connection(), plan.statement.as_str()) {
            Ok(stmt) => stmt,
            Err(e) => {
                return Err(
                    LoadFailure { error: database_error(&e), rows_loaded: 0, row: String::new() },
                );
            },
        };
        load_rows(&mut stmt, &plan.columns, &plan.rows)
    }

    /// Creates one table and loads its rows; returns how many were inserted.
    fn build_table(&self, source: &TableSource) -> (r: Result<usize, LoadFailure>)
        ensures
            table_outcome(r, *source),
            r is Ok ==> well_formed(*source),
    {
        let ddl = match &source.ddl {
            Ok(ddl) => ddl,
            Err(reason) => {
                return Err(unreadable(reason.as_str()));
            },
        };
        match self.create_table(source.name.as_str(), source.pk_type.as_str(), ddl.as_str()) {
            Ok(_) => {},
            Err(e) => {
                return Err(LoadFailure { error: e, rows_loaded: 0, row: String::new() });
            },
        }
        let data = match &source.data {
            Ok(data) => data,
            Err(reason) => {
                return Err(unreadable(reason.as_str()));
            },
        };
        self.load_data(source.name.as_str(), data.as_slice())
    }

    /// Creates and loads every lookup table, in the order of the sources, and
    /// stops at the first that fails; the tables before it stay as they are.
    fn init_lookup_tables(&self, sources: &Vec<TableSource>) -> (r: Result<(), InitFailure>)
        ensures
            r is Ok ==> forall|i: int|
                0 <= i < sources@.len() ==> well_formed(#[trigger] sources@[i]),
            r is Err ==> r->Err_0.index < sources@.len() && table_outcome(
                Err(r->Err_0.failure),
                sources@[r->Err_0.index as int],
            ) && forall|i: int| 0 <= i < r->Err_0.index ==> well_formed(#[trigger] sources@[i]),
    {
        let mut i: usize = 0;
        while i < sources.len()
            invariant
                i <= sources@.len(),
                forall|j: int| 0 <= j < i ==> well_formed(#[trigger] sources@[j]),
            decreases sources@.len() - i,
        {
            match self.build_table(&sources[i]) {
                Ok(_) => {},
                Err(failure) => {
                    return Err(InitFailure { index: i, failure });
                },
            }
            i = i + 1;
        }
        Ok(())
    }
}

impl NewDB for Connection {
    /// A connection is its own database: it returns itself.
    fn connection(&self) -> (r: &Connection)
        ensures
            *r == *self,
    {
        self
    }
}

} // verus!
