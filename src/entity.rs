//! The typed row of the table, the raw column values a result set carries,
//! and the mapping from the latter to the former.

use crate::errors::{ErrorKind, ServerError};
use vstd::prelude::*;

verus! {

/// A row of the table: partition key `a`, clustering key `b`, text `c`.
#[derive(Debug)]
pub struct RowEntity {
    pub a: i32,
    pub b: i32,
    pub c: String,
}

impl View for RowEntity {
    type V = (i32, i32, Seq<char>);

    open spec fn view(&self) -> (i32, i32, Seq<char>) {
        (self.a, self.b, self.c@)
    }
}

/// A non-null column value as the database returns it, reduced to what the
/// row shape reads: 32-bit integers, text (ASCII or UTF-8), anything else.
#[derive(Debug)]
pub enum ColumnValue {
    Int(i32),
    Text(String),
    Other,
}

/// A raw result row: its columns in order, `None` for a null column.
#[derive(Debug)]
pub struct RawRow {
    pub columns: Vec<Option<ColumnValue>>,
}

/// Number of columns of the table's row shape.
pub const ROW_WIDTH: usize = 3;

pub open spec fn int_column(v: Option<ColumnValue>) -> Option<i32> {
    match v {
        Some(ColumnValue::Int(x)) => Some(x),
        _ => None,
    }
}

pub open spec fn text_column(v: Option<ColumnValue>) -> Option<Seq<char>> {
    match v {
        Some(ColumnValue::Text(s)) => Some(s@),
        _ => None,
    }
}

/// The record a raw row stands for: exactly three columns, an integer, an
/// integer and a text, in that order; `None` for any other shape.
pub open spec fn decode_row(cols: Seq<Option<ColumnValue>>) -> Option<(i32, i32, Seq<char>)> {
    if cols.len() == ROW_WIDTH && int_column(cols[0]) is Some && int_column(cols[1]) is Some
        && text_column(cols[2]) is Some {
        Some((int_column(cols[0])->0, int_column(cols[1])->0, text_column(cols[2])->0))
    } else {
        None
    }
}

/// Every row of a result set decodes.
pub open spec fn all_decode(rows: Seq<RawRow>) -> bool {
    forall|i: int| 0 <= i < rows.len() ==> (#[trigger] decode_row(rows[i].columns@)) is Some
}

/// `recs` is the row-by-row decoding of `rows`.
pub open spec fn decodes_to(rows: Seq<RawRow>, recs: Seq<(i32, i32, Seq<char>)>) -> bool {
    &&& recs.len() == rows.len()
    &&& forall|i: int| 0 <= i < rows.len() ==> decode_row(#[trigger] rows[i].columns@) == Some(recs[i])
}

fn read_int(v: &Option<ColumnValue>) -> (r: Option<i32>)
    ensures
        r == int_column(*v),
{
    match v {
        Some(ColumnValue::Int(x)) => Some(*x),
        _ => None,
    }
}

fn read_text(v: &Option<ColumnValue>) -> (r: Option<String>)
    ensures
        r matches Some(s) ==> text_column(*v) == Some(s@),
        r is None ==> text_column(*v) is None,
{
    match v {
        Some(ColumnValue::Text(s)) => Some(s.clone()),
        _ => None,
    }
}

/// Maps one raw row to a record, failing with a row-mapping error when the
/// column count, order or types do not match the row shape.
pub fn map_row(row: &RawRow) -> (r: Result<RowEntity, ServerError>)
    ensures
        r matches Ok(e) ==> decode_row(row.columns@) == Some(e@),
        r matches Err(err) ==> decode_row(row.columns@) is None && err.spec_kind()
            == ErrorKind::RowMapping,
{
    if row.columns.len() != ROW_WIDTH {
        return Err(ServerError::new(ErrorKind::RowMapping, row_size_message()));
    }
    let a = read_int(&row.columns[0]);
    let b = read_int(&row.columns[1]);
    let c = read_text(&row.columns[2]);
    match (a, b, c) {
        (Some(a), Some(b), Some(c)) => Ok(RowEntity { a, b, c }),
        _ => Err(ServerError::new(ErrorKind::RowMapping, column_type_message())),
    }
}

fn row_size_message() -> String {
    "row does not have three columns".to_string()
}

fn column_type_message() -> String {
    "row columns are not (int, int, text)".to_string()
}

/// Maps every row of a result set, in order. An empty result set gives an
/// empty sequence; the first row that does not map aborts the whole mapping
/// with a row-mapping error and no records.
pub fn map_result_set(rows: &Vec<RawRow>) -> (r: Result<Vec<RowEntity>, ServerError>)
    ensures
        r is Ok <==> all_decode(rows@),
        r matches Ok(v) ==> decodes_to(rows@, v@.map_values(|e: RowEntity| e@)),
        r matches Err(err) ==> err.spec_kind() == ErrorKind::RowMapping,
{
    let mut out: Vec<RowEntity> = Vec::new();
    let mut i: usize = 0;
    while i < rows.len()
        invariant
            i <= rows.len(),
            out@.len() == i,
            forall|j: int| 0 <= j < i ==> decode_row(#[trigger] rows@[j].columns@) == Some(out@[j]@),
        decreases rows.len() - i,
    {
        match map_row(&rows[i]) {
            Ok(e) => out.push(e),
            Err(err) => {
                return Err(err);
            },
        }
        i = i + 1;
    }
    assert(decodes_to(rows@, out@.map_values(|e: RowEntity| e@)));
    Ok(out)
}

/// Maps the rows of a query result. A result that carries no rows at all
/// gives an empty sequence, not an error; otherwise as `map_result_set`.
pub fn map_query_rows(rows: Option<Vec<RawRow>>) -> (r: Result<Vec<RowEntity>, ServerError>)
    ensures
        rows is None ==> (r matches Ok(v) && v@.len() == 0),
        rows matches Some(rs) ==> {
            &&& (r is Ok <==> all_decode(rs@))
            &&& (r matches Ok(v) ==> decodes_to(rs@, v@.map_values(|e: RowEntity| e@)))
            &&& (r matches Err(err) ==> err.spec_kind() == ErrorKind::RowMapping)
        },
{
    match rows {
        Some(rs) => map_result_set(&rs),
        None => Ok(Vec::new()),
    }
}

} // verus!
