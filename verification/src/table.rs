//! Reading an export from the bytes of its file.

use crate::review::{
    export_of_rows, extract_reviews, has_required_columns, is_first_short_row, Export, FormatError,
    RowModel,
};
use vstd::prelude::*;

verus! {

/// The error of the `csv` crate, `csv::Error`, carried through as it is.
#[verifier::external_type_specification]
#[verifier::external_body]
pub struct ExCsvError(csv::Error);

/// The records that the `csv` crate reads from `data` with its default
/// settings, the header row left out; `None` where it reports an error.
pub uninterp spec fn csv_records(data: Seq<u8>) -> Option<Seq<RowModel>>;

/// Reads all records of `data` with `csv::Reader::from_reader` and
/// `Reader::records`, each record turned into its fields.
///
/// Trusted: the outcome is a function of the bytes alone, named
/// [`csv_records`]. The first record is the header and is not among the rows;
/// reading stops at the first record that the crate rejects.
#[verifier::external_body]
fn read_records(data: &[u8]) -> (result: Result<Vec<Vec<String>>, csv::Error>)
    ensures
        match result {
            Ok(rows) => csv_records(data@) == Some(rows.deep_view()),
            Err(_) => csv_records(data@) is None,
        },
{
    let mut reader = csv::Reader::from_reader(data);
    let mut rows: Vec<Vec<String>> = Vec::new();
    for record in reader.records() {
        rows.push(record?.iter().map(String::from).collect());
    }
    Ok(rows)
}

/// The message of a `csv::Error`, as its `Display` gives it. Trusted, and
/// nothing is claimed of the text.
#[verifier::external_body]
fn error_text(error: &csv::Error) -> (text: String) {
    error.to_string()
}

/// Reads an export from the bytes of a file of comma-separated values, whose
/// first record is the header.
///
/// Data that is no such table is malformed. A table is read as
/// [`extract_reviews`] reads its rows.
pub fn parse_export(data: &[u8]) -> (result: Result<Export, FormatError>)
    ensures
        match result {
            Ok(export) => {
                &&& csv_records(data@) matches Some(rows)
                &&& forall|i: int| 0 <= i < rows.len() ==> has_required_columns(#[trigger] rows[i])
                &&& export@ == export_of_rows(rows)
            },
            Err(FormatError::MissingColumns { row, found }) => {
                &&& csv_records(data@) matches Some(rows)
                &&& is_first_short_row(rows, row as int)
                &&& found == rows[row as int].len()
            },
            Err(FormatError::Malformed { .. }) => csv_records(data@) is None,
        },
{
    match read_records(data) {
        Ok(rows) => extract_reviews(&rows),
        Err(error) => Err(FormatError::Malformed { cause: error_text(&error) }),
    }
}

} // verus!
