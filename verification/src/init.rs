//! What the lookup tables are built from: the files that each needs, and what
//! was read of them.

use crate::error::{BuildError, ErrorKind};
use crate::loader::{load_outcome, LoadFailure};
use crate::records::{csv_header, csv_rows};
use crate::schema::{resolve_ddl, resolved_ddl, LookupEntry, Schema};
use crate::template::{ddl_subs, render_spec};
use vstd::prelude::*;

verus! {

/// The files that a lookup table is built from.
#[derive(Clone, Debug)]
pub struct TableJob {
    pub name: String,
    pub pk_type: String,
    /// The path of the DDL template.
    pub ddl_path: String,
    /// The path of the CSV file.
    pub data_path: String,
}

/// A table with what was read of its files: the text of the DDL template and
/// the bytes of the CSV file, or for either the reason why it could not be
/// read.
#[derive(Debug)]
pub struct TableSource {
    pub name: String,
    pub pk_type: String,
    pub ddl: Result<String, String>,
    pub data: Result<Vec<u8>, String>,
}

/// The table at which the build stopped, and why.
#[derive(Clone, Debug)]
pub struct InitFailure {
    /// The position of the table among the sources.
    pub index: usize,
    pub failure: LoadFailure,
}

/// The job is the one for the entry: its name, key type and data file, and its
/// DDL template or else the default one.
pub open spec fn job_for(job: TableJob, entry: LookupEntry, default_ddl: Seq<char>) -> bool {
    &&& job.name@ == entry.name@
    &&& job.pk_type@ == entry.table.pk_type@
    &&& job.ddl_path@ == resolved_ddl(entry.table, default_ddl)
    &&& job.data_path@ == entry.table.data@
}

/// What `build_table` may return for a source. A file that could not be read
/// and a template that does not render fail the table before the database is
/// asked; after that the database may refuse the DDL; else the outcome is that
/// of loading the data.
pub open spec fn table_outcome(r: Result<usize, LoadFailure>, source: TableSource) -> bool {
    match source.ddl {
        Err(_) => r is Err && r->Err_0.error.kind == ErrorKind::Io && r->Err_0.rows_loaded == 0,
        Ok(ddl) => match render_spec(ddl@, ddl_subs(source.name@, source.pk_type@)) {
            None => r is Err && r->Err_0.error.kind == ErrorKind::Template && r->Err_0.rows_loaded
                == 0,
            Some(_) => (r is Err && r->Err_0.error.kind == ErrorKind::Database
                && r->Err_0.rows_loaded == 0) || match source.data {
                Err(_) => r is Err && r->Err_0.error.kind == ErrorKind::Io && r->Err_0.rows_loaded
                    == 0,
                Ok(data) => load_outcome(r, csv_header(data@), csv_rows(data@)),
            },
        },
    }
}

/// Nothing in the source itself fails the table: both files were read, the
/// template renders, and the header and every row of the data are well formed.
pub open spec fn well_formed(source: TableSource) -> bool {
    &&& source.ddl is Ok
    &&& render_spec(source.ddl->Ok_0@, ddl_subs(source.name@, source.pk_type@)) is Some
    &&& source.data is Ok
    &&& csv_header(source.data->Ok_0@) is Some
    &&& csv_header(source.data->Ok_0@)->Some_0.len() > 0 ==> forall|i: int|
        0 <= i < csv_rows(source.data->Ok_0@).len() ==> (#[trigger] csv_rows(
            source.data->Ok_0@,
        )[i]) is Some
}

/// The failure that stands for a file that could not be read.
pub fn unreadable(reason: &str) -> (f: LoadFailure)
    ensures
        f.error.kind == ErrorKind::Io,
        f.error.message@ == reason@,
        f.rows_loaded == 0,
        f.row@.len() == 0,
{
    LoadFailure {
        error: BuildError::new(ErrorKind::Io, String::from_str(reason)),
        rows_loaded: 0,
        row: String::new(),
    }
}

/// The jobs for the lookup tables of a build configuration, one for each, in
/// their order.
pub fn lookup_jobs(schema: &Schema) -> (jobs: Vec<TableJob>)
    ensures
        jobs@.len() == schema.entries().len(),
        forall|i: int|
            0 <= i < jobs@.len() ==> job_for(
                #[trigger] jobs@[i],
                schema.entries()[i],
                schema.default_ddl(),
            ),
{
    let entries = schema.lookup_tables();
    let default_ddl = schema.lookup_schema();
    let mut jobs: Vec<TableJob> = Vec::new();
    let mut i: usize = 0;
    while i < entries.len()
        invariant
            i <= entries@.len(),
            jobs@.len() == i,
            entries@ == schema.entries(),
            default_ddl@ == schema.default_ddl(),
            forall|j: int|
                0 <= j < i ==> job_for(#[trigger] jobs@[j], entries@[j], default_ddl@),
        decreases entries@.len() - i,
    {
        let entry = &entries[i];
        let job = TableJob {
            name: entry.name.clone(),
            pk_type: entry.table.pk_type.clone(),
            ddl_path: String::from_str(resolve_ddl(&entry.table, default_ddl)),
            data_path: entry.table.data.clone(),
        };
        jobs.push(job);
        i = i + 1;
    }
    jobs
}

} // verus!
