//! The build configuration: the primary tables, the lookup tables
//! that they refer to, and where the DDL and the data of each are found.

use crate::error::{BuildError, ErrorKind};
use vstd::prelude::*;

verus! {

/// Which schema and data are used for a lookup table.
#[derive(Clone, Debug)]
pub struct LookupTable {
    /// The SQL type of the primary key, such as `CHAR(1)`.
    pub pk_type: String,
    /// The path of the CSV file with the table's rows.
    pub data: String,
    /// The path of the table's own DDL template, if it has one.
    pub schema: Option<String>,
}

/// A table whose rows refer to lookup tables.
#[derive(Clone, Debug)]
pub struct PrimaryTable {
    pub name: String,
    /// The path of the table's DDL file.
    pub schema: String,
}

/// A lookup table under its name.
#[derive(Clone, Debug)]
pub struct LookupEntry {
    pub name: String,
    pub table: LookupTable,
}

/// The build configuration. No two lookup tables have the same name.
#[derive(Debug)]
pub struct Schema {
    tables: Vec<PrimaryTable>,
    lookup_schema: String,
    lookup_tables: Vec<LookupEntry>,
}

/// No name occurs twice among the entries.
pub open spec fn distinct_names(entries: Seq<LookupEntry>) -> bool {
    forall|i: int, j: int|
        0 <= i < j < entries.len() ==> (#[trigger] entries[i]).name@ != (#[trigger] entries[j]).name@
}

/// Some entry has the name.
pub open spec fn has_name(entries: Seq<LookupEntry>, name: Seq<char>) -> bool {
    exists|i: int| 0 <= i < entries.len() && (#[trigger] entries[i]).name@ == name
}

/// The path of the DDL template of a lookup table: its own, else the default.
pub open spec fn resolved_ddl(table: LookupTable, default_ddl: Seq<char>) -> Seq<char> {
    match table.schema {
        Some(path) => path@,
        None => default_ddl,
    }
}

/// The path of the DDL template of a lookup table: its own, else the default.
pub fn resolve_ddl<'a>(table: &'a LookupTable, default_ddl: &'a str) -> (path: &'a str)
    ensures
        path@ == resolved_ddl(*table, default_ddl@),
{
    match &table.schema {
        Some(path) => path.as_str(),
        None => default_ddl,
    }
}

/// Whether no name occurs twice among the entries.
pub fn names_distinct(entries: &Vec<LookupEntry>) -> (r: bool)
    ensures
        r == distinct_names(entries@),
{
    let mut j: usize = 0;
    while j < entries.len()
        invariant
            j <= entries@.len(),
            forall|a: int, b: int|
                0 <= a < b < j ==> (#[trigger] entries@[a]).name@ != (#[trigger] entries@[b]).name@,
        decreases entries@.len() - j,
    {
        let mut i: usize = 0;
        while i < j
            invariant
                i <= j,
                j < entries@.len(),
                forall|a: int| 0 <= a < i ==> (#[trigger] entries@[a]).name@ != entries@[j as int].name@,
            decreases j - i,
        {
            if entries[i].name == entries[j].name {
                return false;
            }
            i = i + 1;
        }
        j = j + 1;
    }
    true
}

impl Schema {
    #[verifier::type_invariant]
    spec fn names_are_distinct(self) -> bool {
        distinct_names(self.lookup_tables@)
    }

    /// The primary tables, in the order in which they are to be created.
    pub closed spec fn primary(self) -> Seq<PrimaryTable> {
        self.tables@
    }

    /// The path of the DDL template that lookup tables share.
    pub closed spec fn default_ddl(self) -> Seq<char> {
        self.lookup_schema@
    }

    /// The lookup tables, each under its name.
    pub closed spec fn entries(self) -> Seq<LookupEntry> {
        self.lookup_tables@
    }

    /// Makes a build configuration; a configuration error where two lookup
    /// tables have the same name.
    pub fn new(tables: Vec<PrimaryTable>, lookup_schema: String, lookup_tables: Vec<LookupEntry>) -> (r:
        Result<Schema, BuildError>)
        ensures
            distinct_names(lookup_tables@) ==> r is Ok && r->Ok_0.primary() == tables@
                && r->Ok_0.default_ddl() == lookup_schema@ && r->Ok_0.entries() == lookup_tables@,
            !distinct_names(lookup_tables@) ==> r is Err && r->Err_0.kind == ErrorKind::Config,
    {
        if names_distinct(&lookup_tables) {
            Ok(Schema { tables, lookup_schema, lookup_tables })
        } else {
            Err(BuildError::new(ErrorKind::Config, String::from_str("duplicate lookup table name")))
        }
    }

    /// The primary tables, in the order in which they are to be created.
    pub fn tables(&self) -> (r: &Vec<PrimaryTable>)
        ensures
            r@ == self.primary(),
    {
        &self.tables
    }

    /// The path of the DDL template that lookup tables share.
    pub fn lookup_schema(&self) -> (r: &str)
        ensures
            r@ == self.default_ddl(),
    {
        self.lookup_schema.as_str()
    }

    /// The lookup tables; no two of them have the same name.
    pub fn lookup_tables(&self) -> (r: &Vec<LookupEntry>)
        ensures
            r@ == self.entries(),
            distinct_names(r@),
    {
        proof {
            use_type_invariant(self);
        }
        &self.lookup_tables
    }

    /// The lookup table of the given name, if there is one.
    pub fn lookup(&self, name: &str) -> (r: Option<&LookupTable>)
        ensures
            r is Some <==> has_name(self.entries(), name@),
            r is Some ==> exists|i: int|
                0 <= i < self.entries().len() && (#[trigger] self.entries()[i]).name@ == name@
                    && *r->Some_0 == self.entries()[i].table,
    {
        let key = String::from_str(name);
        let mut i: usize = 0;
        while i < self.lookup_tables.len()
            invariant
                i <= self.lookup_tables@.len(),
                key@ == name@,
                forall|a: int| 0 <= a < i ==> (#[trigger] self.lookup_tables@[a]).name@ != name@,
            decreases self.lookup_tables@.len() - i,
        {
            if self.lookup_tables[i].name == key {
                return Some(&self.lookup_tables[i].table);
            }
            i = i + 1;
        }
        None
    }
}

} // verus!
