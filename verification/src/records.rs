//! Reading CSV data: a header row, then the data rows, every value trimmed of
//! the whitespace around it.

use crate::error::{BuildError, ErrorKind};
use vstd::prelude::*;

verus! {

/// `csv::Error`, the error of the CSV reader.
#[verifier::external_type_specification]
#[verifier::external_body]
pub struct ExCsvError(csv::Error);

/// The header row that the `csv` reader finds in `data`, or `None` where it
/// cannot be parsed.
pub uninterp spec fn csv_header(data: Seq<u8>) -> Option<Seq<Seq<char>>>;

/// The data rows that the `csv` reader finds after the header of `data`, in
/// order; `None` stands for a row that it rejects.
pub uninterp spec fn csv_rows(data: Seq<u8>) -> Seq<Option<Seq<Seq<char>>>>;

/// The fields of a row as texts.
pub open spec fn fields_view(fields: Seq<String>) -> Seq<Seq<char>> {
    Seq::new(fields.len(), |i: int| fields[i]@)
}

/// The rows as texts, `None` for a row that was rejected.
pub open spec fn rows_view(rows: Seq<Result<Vec<String>, csv::Error>>) -> Seq<
    Option<Seq<Seq<char>>>,
> {
    Seq::new(
        rows.len(),
        |i: int|
            match rows[i] {
                Ok(fields) => Some(fields_view(fields@)),
                Err(_) => None,
            },
    )
}

/// Calls `Reader::headers` of `csv` on a reader over `data` that honours
/// quotes, takes the first row as the header and trims every value. Trusted:
/// the result is the header that `csv_header` names.
#[verifier::external_body]
fn read_header(data: &[u8]) -> (r: Result<Vec<String>, csv::Error>)
    ensures
        r is Ok <==> csv_header(data@) is Some,
        r is Ok ==> fields_view(r->Ok_0@) == csv_header(data@)->Some_0,
{
    let mut reader = csv::ReaderBuilder::new()
        .quoting(true)
        .has_headers(true)
        .trim(csv::Trim::All)
        .from_reader(data);
    reader.headers().map(|header| header.iter().map(String::from).collect())
}

/// Calls `Reader::into_records` of `csv` on a reader made as in `read_header`
/// and collects what it yields. Trusted: the result is the rows that `csv_rows`
/// names.
#[verifier::external_body]
pub(crate) fn read_rows(data: &[u8]) -> (rows: Vec<Result<Vec<String>, csv::Error>>)
    ensures
        rows_view(rows@) == csv_rows(data@),
{
    let reader = csv::ReaderBuilder::new()
        .quoting(true)
        .has_headers(true)
        .trim(csv::Trim::All)
        .from_reader(data);
    reader.into_records().map(|row| row.map(|r| r.iter().map(String::from).collect())).collect()
}

/// The text of a `csv::Error`, as its `Display` gives it.
#[verifier::external_body]
fn csv_error_text(e: &csv::Error) -> (text: String) {
    format!("{e}")
}

/// The format error that stands for an error of the CSV reader.
pub fn format_error(e: &csv::Error) -> (r: BuildError)
    ensures
        r.kind == ErrorKind::Format,
{
    BuildError::new(ErrorKind::Format, csv_error_text(e))
}

/// The header row of `data`; a format error where it cannot be parsed.
pub fn header_of(data: &[u8]) -> (r: Result<Vec<String>, BuildError>)
    ensures
        match csv_header(data@) {
            Some(header) => r is Ok && fields_view(r->Ok_0@) == header,
            None => r is Err && r->Err_0.kind == ErrorKind::Format,
        },
{
    match read_header(data) {
        Ok(header) => Ok(header),
        Err(e) => Err(format_error(&e)),
    }
}

} // verus!
