//! Data transfer objects handed to the request-serving layer: a result
//! envelope that carries either data or errors, and the row record.

use crate::entity::RowEntity;
use crate::errors::ServerError;
use vstd::prelude::*;

verus! {

/// Data transfer object for an error.
#[derive(Debug)]
pub struct ErrorDto {
    details: String,
}

impl ErrorDto {
    pub closed spec fn spec_details(&self) -> Seq<char> {
        self.details@
    }

    /// Error details.
    pub fn details(&self) -> (r: &String)
        ensures
            r@ == self.spec_details(),
    {
        &self.details
    }
}

/// Data transfer object for the result (valid data or errors).
#[derive(Debug)]
pub struct ResultDto<T> {
    data: Option<T>,
    errors: Vec<ErrorDto>,
}

impl<T> Default for ResultDto<T> {
    /// An envelope with neither data nor errors.
    fn default() -> (r: Self)
        ensures
            r.spec_data() is None,
            r.spec_errors().len() == 0,
    {
        ResultDto { data: None, errors: Vec::new() }
    }
}

impl<T> ResultDto<T> {
    pub closed spec fn spec_data(&self) -> Option<T> {
        self.data
    }

    /// The details of the errors, in order.
    pub closed spec fn spec_errors(&self) -> Seq<Seq<char>> {
        self.errors@.map_values(|e: ErrorDto| e.spec_details())
    }

    /// Creates an envelope with some data inside and no errors.
    pub fn data(d: T) -> (r: ResultDto<T>)
        ensures
            r.spec_data() == Some(d),
            r.spec_errors().len() == 0,
    {
        let r = ResultDto { data: Some(d), errors: Vec::new() };
        assert(r.spec_errors() =~= Seq::empty());
        r
    }

    /// Creates an envelope with a single error inside and no data.
    pub fn error(err: ServerError) -> (r: ResultDto<T>)
        ensures
            r.spec_data() is None,
            r.spec_errors() == seq![err.spec_details()],
    {
        let mut errors: Vec<ErrorDto> = Vec::new();
        errors.push(ErrorDto { details: err.message() });
        let r = ResultDto { data: None, errors };
        assert(r.spec_errors() =~= seq![err.spec_details()]);
        r
    }

    /// The data, if any.
    pub fn payload(&self) -> (r: &Option<T>)
        ensures
            *r == self.spec_data(),
    {
        &self.data
    }

    /// The errors, in order.
    pub fn errors(&self) -> (r: &Vec<ErrorDto>)
        ensures
            r@.map_values(|e: ErrorDto| e.spec_details()) == self.spec_errors(),
    {
        &self.errors
    }

    /// Takes the envelope apart into its data and its errors.
    pub fn into_parts(self) -> (r: (Option<T>, Vec<ErrorDto>))
        ensures
            r.0 == self.spec_data(),
            r.1@.map_values(|e: ErrorDto| e.spec_details()) == self.spec_errors(),
    {
        (self.data, self.errors)
    }
}

/// Data transfer object for a row.
#[derive(Debug, Default)]
pub struct RowDto {
    pub a: i32,
    pub b: i32,
    pub c: String,
}

impl View for RowDto {
    type V = (i32, i32, Seq<char>);

    open spec fn view(&self) -> (i32, i32, Seq<char>) {
        (self.a, self.b, self.c@)
    }
}

/// The transfer object of a row record.
pub fn row_dto(e: RowEntity) -> (r: RowDto)
    ensures
        r@ == e@,
{
    RowDto { a: e.a, b: e.b, c: e.c }
}

/// The transfer objects of row records, in order.
pub fn row_dtos(rows: Vec<RowEntity>) -> (r: Vec<RowDto>)
    ensures
        r@.map_values(|d: RowDto| d@) == rows@.map_values(|e: RowEntity| e@),
{
    let mut out: Vec<RowDto> = Vec::new();
    let mut i: usize = 0;
    while i < rows.len()
        invariant
            i <= rows@.len(),
            out@.len() == i,
            forall|j: int| 0 <= j < i ==> (#[trigger] out@[j])@ == rows@[j]@,
        decreases rows@.len() - i,
    {
        let e = &rows[i];
        out.push(RowDto { a: e.a, b: e.b, c: e.c.clone() });
        i = i + 1;
    }
    assert(out@.map_values(|d: RowDto| d@) =~= rows@.map_values(|e: RowEntity| e@));
    out
}

/// The envelope answering a request for all rows: the rows on success, the
/// single error otherwise, never both.
pub fn rows_response(result: Result<Vec<RowEntity>, ServerError>) -> (r: ResultDto<Vec<RowDto>>)
    ensures
        result matches Ok(rows) ==> r.spec_data() matches Some(d) && d@.map_values(|x: RowDto| x@)
            == rows@.map_values(|e: RowEntity| e@) && r.spec_errors().len() == 0,
        result matches Err(err) ==> r.spec_data() is None && r.spec_errors() == seq![
            err.spec_details(),
        ],
{
    match result {
        Ok(rows) => ResultDto::data(row_dtos(rows)),
        Err(err) => ResultDto::error(err),
    }
}

} // verus!
