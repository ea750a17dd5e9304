//! Loading rows: the INSERT statement for a header, the values to store for a
//! row, and the loop that inserts the rows.

use crate::database::{database_error, insert_row, CellValue};
use crate::error::{BuildError, ErrorKind};
use crate::records::{csv_header, csv_rows, fields_view, format_error, header_of, read_rows, rows_view};
use rusqlite::Statement;
use vstd::prelude::*;

verus! {

/// Why a load stopped, and how far it had come.
#[derive(Clone, Debug)]
pub struct LoadFailure {
    pub error: BuildError,
    /// The number of rows that were inserted before the failure.
    pub rows_loaded: usize,
    /// For a row that the database refused: its `column=value,` pairs.
    pub row: String,
}

/// What is to be loaded into a table.
#[derive(Debug)]
pub struct LoadPlan {
    /// The INSERT statement, with one parameter for each column.
    pub statement: String,
    /// The columns, as the header names them.
    pub columns: Vec<String>,
    /// The data rows in order; an error stands for a malformed row.
    pub rows: Vec<Result<Vec<String>, csv::Error>>,
}

/// What is stored for a field: NULL for the empty text, else the text.
pub open spec fn cell_spec(field: Seq<char>) -> Option<Seq<char>> {
    if field.len() == 0 {
        None
    } else {
        Some(field)
    }
}

/// The items with `", "` between them.
pub open spec fn joined(items: Seq<Seq<char>>) -> Seq<char>
    decreases items.len(),
{
    if items.len() == 0 {
        Seq::empty()
    } else if items.len() == 1 {
        items[0]
    } else {
        joined(items.drop_last()) + ", "@ + items.last()
    }
}

/// `n` parameter marks with `", "` between them.
pub open spec fn marks(n: nat) -> Seq<char>
    decreases n,
{
    if n == 0 {
        Seq::empty()
    } else if n == 1 {
        "?"@
    } else {
        marks((n - 1) as nat) + ", "@ + "?"@
    }
}

/// The INSERT statement for a table and its columns: the columns in order, and
/// one parameter mark for each.
pub open spec fn insert_sql(name: Seq<char>, columns: Seq<Seq<char>>) -> Seq<char> {
    "INSERT INTO "@ + name + " ("@ + joined(columns) + ") VALUES("@ + marks(columns.len()) + ")"@
}

/// `name=value,` for each of the first `n` pairs.
pub open spec fn pairs_text(names: Seq<Seq<char>>, values: Seq<Seq<char>>, n: nat) -> Seq<char>
    decreases n,
{
    if n == 0 || n > names.len() || n > values.len() {
        Seq::empty()
    } else {
        pairs_text(names, values, (n - 1) as nat) + names[n - 1] + "="@ + values[n - 1] + ","@
    }
}

/// `name=value,` for each column that has a value.
pub open spec fn row_text_spec(names: Seq<Seq<char>>, values: Seq<Seq<char>>) -> Seq<char> {
    if names.len() <= values.len() {
        pairs_text(names, values, names.len())
    } else {
        pairs_text(names, values, values.len())
    }
}

/// The load stopped at row `f.rows_loaded`: the rows before it are in the
/// table; that row was malformed, or the database refused it.
pub open spec fn failed_at(
    f: LoadFailure,
    columns: Seq<Seq<char>>,
    rows: Seq<Option<Seq<Seq<char>>>>,
) -> bool {
    &&& f.rows_loaded < rows.len()
    &&& forall|i: int| 0 <= i < f.rows_loaded ==> (#[trigger] rows[i]) is Some
    &&& match rows[f.rows_loaded as int] {
        None => f.error.kind == ErrorKind::Format && f.row@.len() == 0,
        Some(fields) => f.error.kind == ErrorKind::Database && f.row@ == row_text_spec(
            columns,
            fields,
        ),
    }
}

/// The database refused the INSERT statement itself.
pub open spec fn statement_refused(f: LoadFailure) -> bool {
    f.error.kind == ErrorKind::Database && f.rows_loaded == 0 && f.row@.len() == 0
}

/// What `load_rows` may return for the rows of a table.
pub open spec fn rows_outcome(
    r: Result<usize, LoadFailure>,
    columns: Seq<Seq<char>>,
    rows: Seq<Option<Seq<Seq<char>>>>,
) -> bool {
    match r {
        Ok(n) => n == rows.len() && forall|i: int| 0 <= i < rows.len() ==> (#[trigger] rows[i]) is Some,
        Err(f) => failed_at(f, columns, rows),
    }
}

/// The plan is the one for a table of this name and for data with this header
/// and these rows: none for a header without columns; else the INSERT
/// statement over the columns of the header, and every row.
pub open spec fn plan_for(
    plan: Option<LoadPlan>,
    name: Seq<char>,
    columns: Seq<Seq<char>>,
    rows: Seq<Option<Seq<Seq<char>>>>,
) -> bool {
    if columns.len() == 0 {
        plan is None
    } else {
        &&& plan is Some
        &&& plan->Some_0.statement@ == insert_sql(name, columns)
        &&& fields_view(plan->Some_0.columns@) == columns
        &&& rows_view(plan->Some_0.rows@) == rows
    }
}

/// What `load_data` may return for a header and the rows after it.
pub open spec fn load_outcome(
    r: Result<usize, LoadFailure>,
    header: Option<Seq<Seq<char>>>,
    rows: Seq<Option<Seq<Seq<char>>>>,
) -> bool {
    match header {
        None => r is Err && r->Err_0.error.kind == ErrorKind::Format && r->Err_0.rows_loaded == 0,
        Some(columns) => if columns.len() == 0 {
            r is Ok && r->Ok_0 == 0
        } else {
            rows_outcome(r, columns, rows) || (r is Err && statement_refused(r->Err_0))
        },
    }
}

/// The value to store for a field.
pub fn cell_of(field: &str) -> (cell: CellValue)
    ensures
        cell@ == cell_spec(field@),
{
    if field.is_empty() {
        CellValue::Null
    } else {
        CellValue::Text(String::from_str(field))
    }
}

/// The values to store for a row, field by field.
pub fn cells_of(row: &Vec<String>) -> (cells: Vec<CellValue>)
    ensures
        cells@.len() == row@.len(),
        forall|i: int| 0 <= i < row@.len() ==> (#[trigger] cells@[i])@ == cell_spec(row@[i]@),
{
    let mut cells: Vec<CellValue> = Vec::new();
    let mut i: usize = 0;
    while i < row.len()
        invariant
            i <= row@.len(),
            cells@.len() == i,
            forall|j: int| 0 <= j < i ==> (#[trigger] cells@[j])@ == cell_spec(row@[j]@),
        decreases row@.len() - i,
    {
        cells.push(cell_of(row[i].as_str()));
        i = i + 1;
    }
    cells
}

/// The parameterized INSERT statement for the columns of a header, or nothing
/// for a header without columns.
pub fn insert_statement(name: &str, columns: &Vec<String>) -> (r: Option<String>)
    ensures
        columns@.len() == 0 ==> r is None,
        columns@.len() > 0 ==> r is Some && r->Some_0@ == insert_sql(
            name@,
            fields_view(columns@),
        ),
{
    if columns.len() == 0 {
        return None;
    }
    let ghost names = fields_view(columns@);
    let mut fields = String::new();
    let mut values = String::new();
    let mut i: usize = 0;
    while i < columns.len()
        invariant
            i <= columns@.len(),
            names == fields_view(columns@),
            fields@ == joined(names.take(i as int)),
            values@ == marks(i as nat),
        decreases columns@.len() - i,
    {
        if i > 0 {
            fields.append(", ");
            values.append(", ");
        }
        fields.append(columns[i].as_str());
        values.append("?");
        proof {
            let next = names.take(i + 1);
            assert(next.drop_last() =~= names.take(i as int));
            assert(next.last() == columns@[i as int]@);
            assert(fields@ =~= joined(next));
            assert(values@ =~= marks((i + 1) as nat));
        }
        i = i + 1;
    }
    assert(names.take(i as int) =~= names);
    let mut sql = String::from_str("INSERT INTO ");
    sql.append(name);
    sql.append(" (");
    sql.append(fields.as_str());
    sql.append(") VALUES(");
    sql.append(values.as_str());
    sql.append(")");
    Some(sql)
}

/// The `column=value,` pairs of a row, for as many columns as have a value.
pub fn row_text(columns: &Vec<String>, row: &Vec<String>) -> (text: String)
    ensures
        text@ == row_text_spec(fields_view(columns@), fields_view(row@)),
{
    let n: usize = if columns.len() <= row.len() {
        columns.len()
    } else {
        row.len()
    };
    let mut text = String::new();
    let mut i: usize = 0;
    while i < n
        invariant
            i <= n,
            n <= columns@.len(),
            n <= row@.len(),
            text@ == pairs_text(fields_view(columns@), fields_view(row@), i as nat),
        decreases n - i,
    {
        text.append(columns[i].as_str());
        text.append("=");
        text.append(row[i].as_str());
        text.append(",");
        proof {
            assert(text@ =~= pairs_text(
                fields_view(columns@),
                fields_view(row@),
                (i + 1) as nat,
            ));
        }
        i = i + 1;
    }
    text
}

/// Reads CSV data and says what is to be loaded into the named table: nothing
/// for data whose header has no column. Fails with a format error exactly where
/// the header cannot be parsed.
pub fn plan_load(name: &str, data: &[u8]) -> (r: Result<Option<LoadPlan>, BuildError>)
    ensures
        match csv_header(data@) {
            None => r is Err && r->Err_0.kind == ErrorKind::Format,
            Some(columns) => r is Ok && plan_for(r->Ok_0, name@, columns, csv_rows(data@)),
        },
{
    let columns = match header_of(data) {
        Ok(columns) => columns,
        Err(e) => {
            return Err(e);
        },
    };
    match insert_statement(name, &columns) {
        Some(statement) => Ok(Some(LoadPlan { statement, columns, rows: read_rows(data) })),
        None => Ok(None),
    }
}

/// Inserts the rows in order through a prepared INSERT statement and stops at
/// the first row that is malformed or that the database refuses.
pub fn load_rows(
    stmt: &mut Statement<'_>,
    columns: &Vec<String>,
    rows: &Vec<Result<Vec<String>, csv::Error>>,
) -> (r: Result<usize, LoadFailure>)
    ensures
        rows_outcome(r, fields_view(columns@), rows_view(rows@)),
{
    let mut count: usize = 0;
    while count < rows.len()
        invariant
            count <= rows@.len(),
            forall|i: int| 0 <= i < count ==> (#[trigger] rows_view(rows@)[i]) is Some,
        decreases rows@.len() - count,
    {
        match &rows[count] {
            Err(e) => {
                return Err(
                    LoadFailure { error: format_error(e), rows_loaded: count, row: String::new() },
                );
            },
            Ok(fields) => {
                let cells = cells_of(fields);
                match insert_row(stmt, &cells) {
                    Ok(_) => {},
                    Err(e) => {
                        return Err(
                            LoadFailure {
                                error: database_error(&e),
                                rows_loaded: count,
                                row: row_text(columns, fields),
                            },
                        );
                    },
                }
            },
        }
        count = count + 1;
    }
    Ok(count)
}

/// A load that succeeds has inserted every data row: for data with a header of
/// at least one column, the count that is returned is the number of data rows,
/// and none of them is malformed.
pub proof fn lemma_success_counts_every_row(
    r: Result<usize, LoadFailure>,
    columns: Seq<Seq<char>>,
    rows: Seq<Option<Seq<Seq<char>>>>,
)
    requires
        load_outcome(r, Some(columns), rows),
        columns.len() > 0,
        r is Ok,
    ensures
        r->Ok_0 == rows.len(),
        forall|i: int| 0 <= i < rows.len() ==> (#[trigger] rows[i]) is Some,
{
}

/// Data whose header has no column loads nothing: the result is a count of 0,
/// and there is no statement to execute.
pub proof fn lemma_empty_header_loads_nothing(
    r: Result<usize, LoadFailure>,
    plan: Option<LoadPlan>,
    name: Seq<char>,
    columns: Seq<Seq<char>>,
    rows: Seq<Option<Seq<Seq<char>>>>,
)
    requires
        load_outcome(r, Some(columns), rows),
        plan_for(plan, name, columns, rows),
        columns.len() == 0,
    ensures
        r is Ok && r->Ok_0 == 0,
        plan is None,
{
}

/// A malformed row ends the load. Where row `k` is the first malformed one,
/// the load fails; no row from `k` on is inserted; and unless the database
/// refused the statement or an earlier row, the failure is a format error
/// after exactly the `k` rows before it.
pub proof fn lemma_malformed_row_ends_load(
    r: Result<usize, LoadFailure>,
    columns: Seq<Seq<char>>,
    rows: Seq<Option<Seq<Seq<char>>>>,
    k: int,
)
    requires
        load_outcome(r, Some(columns), rows),
        columns.len() > 0,
        0 <= k < rows.len(),
        rows[k] is None,
        forall|i: int| 0 <= i < k ==> (#[trigger] rows[i]) is Some,
    ensures
        r is Err,
        r->Err_0.rows_loaded <= k,
        r->Err_0.error.kind == ErrorKind::Format || r->Err_0.error.kind == ErrorKind::Database,
        r->Err_0.error.kind == ErrorKind::Format <==> r->Err_0.rows_loaded == k && !statement_refused(
            r->Err_0,
        ),
{
    if r is Ok {
        assert(rows[k] is Some);
    } else {
        let f = r->Err_0;
        if failed_at(f, columns, rows) {
            if f.rows_loaded > k {
                assert(rows[k] is Some);
            }
        }
    }
}

/// Every stored value is NULL or the field itself: NULL exactly for the empty
/// field.
pub proof fn lemma_cell_is_null_or_verbatim(field: Seq<char>)
    ensures
        field.len() == 0 <==> cell_spec(field) is None,
        field.len() > 0 ==> cell_spec(field) == Some(field),
{
}

} // verus!
