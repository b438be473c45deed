//! Error values of the storage layer.

use scylla::cql_to_rust::FromRowError;
use scylla::transport::errors::{NewSessionError, QueryError};
use vstd::prelude::*;
use vstd::string::to_string_from_display_ensures;

verus! {

#[verifier::external_type_specification]
#[verifier::external_body]
pub struct ExNewSessionError(NewSessionError);

#[verifier::external_type_specification]
#[verifier::external_body]
pub struct ExQueryError(QueryError);

#[verifier::external_type_specification]
#[verifier::external_body]
pub struct ExFromRowError(FromRowError);

#[verifier::external_type_specification]
#[verifier::external_body]
pub struct ExIoError(std::io::Error);

/// The kind of a failure, one per way the storage layer can fail.
#[derive(Clone, Copy, Debug, PartialEq, Eq, Structural)]
pub enum ErrorKind {
    /// A failure outside the database (for instance binding the server socket).
    Internal,
    /// Building the session (connection pool) failed.
    Connection,
    /// A schema (DDL) statement failed.
    Schema,
    /// An operation was attempted before a session was established.
    NoSession,
    /// A statement failed at the server or in transport.
    Query,
    /// A result row did not have the expected shape.
    RowMapping,
    /// Exclusive access to the storage could not be acquired.
    NoAccessToStorage,
}

/// Common error definition: a kind and a textual description.
#[derive(Debug)]
pub struct ServerError {
    kind: ErrorKind,
    details: String,
}

/// Common result type.
pub type Result<T, E = ServerError> = core::result::Result<T, E>;

pub const NO_SESSION_MESSAGE: &'static str = "session not initialized";

pub const NO_ACCESS_MESSAGE: &'static str = "no access to storage";

impl ServerError {
    pub closed spec fn spec_kind(&self) -> ErrorKind {
        self.kind
    }

    pub closed spec fn spec_details(&self) -> Seq<char> {
        self.details@
    }

    /// Builds an error of the given kind with the given description.
    pub fn new(kind: ErrorKind, details: String) -> (r: ServerError)
        ensures
            r.spec_kind() == kind,
            r.spec_details() == details@,
    {
        ServerError { kind, details }
    }

    /// The kind of this error.
    pub fn kind(&self) -> (r: ErrorKind)
        ensures
            r == self.spec_kind(),
    {
        self.kind
    }

    /// The textual description of this error, as shown to callers.
    pub fn message(&self) -> (r: String)
        ensures
            r@ == self.spec_details(),
    {
        self.details.clone()
    }
}

/// Relies on the derived `Debug` of `NewSessionError` to describe it.
#[verifier::external_body]
fn new_session_error_text(e: &NewSessionError) -> (r: String) {
    format!("{:?}", e)
}

/// Relies on the derived `Debug` of `QueryError` to describe it.
#[verifier::external_body]
fn query_error_text(e: &QueryError) -> (r: String) {
    format!("{:?}", e)
}

/// Relies on the derived `Debug` of `FromRowError` to describe it.
#[verifier::external_body]
fn from_row_error_text(e: &FromRowError) -> (r: String) {
    format!("{:?}", e)
}

/// Converts an I/O failure into an internal error described by the
/// failure's display text.
pub fn err_internal(e: std::io::Error) -> (r: ServerError)
    ensures
        r.spec_kind() == ErrorKind::Internal,
        exists|text: String|
            to_string_from_display_ensures::<std::io::Error>(&e, text) && r.spec_details() == text@,
{
    let text = e.to_string();
    ServerError::new(ErrorKind::Internal, text)
}

/// The error of an operation attempted before a session was established.
pub fn err_no_session() -> (r: ServerError)
    ensures
        r.spec_kind() == ErrorKind::NoSession,
        r.spec_details() == NO_SESSION_MESSAGE@,
{
    ServerError::new(ErrorKind::NoSession, NO_SESSION_MESSAGE.to_string())
}

/// Converts a failure to build the session into a connection error.
pub fn err_new_session(e: NewSessionError) -> (r: ServerError)
    ensures
        r.spec_kind() == ErrorKind::Connection,
{
    ServerError::new(ErrorKind::Connection, new_session_error_text(&e))
}

/// Converts a failed statement into a query error.
pub fn err_query(e: QueryError) -> (r: ServerError)
    ensures
        r.spec_kind() == ErrorKind::Query,
{
    ServerError::new(ErrorKind::Query, query_error_text(&e))
}

/// Converts a failed schema statement into a schema error.
pub fn err_schema(e: QueryError) -> (r: ServerError)
    ensures
        r.spec_kind() == ErrorKind::Schema,
{
    ServerError::new(ErrorKind::Schema, query_error_text(&e))
}

/// Converts a failure of the driver's typed row conversion into a mapping error.
pub fn err_from_row(e: FromRowError) -> (r: ServerError)
    ensures
        r.spec_kind() == ErrorKind::RowMapping,
{
    ServerError::new(ErrorKind::RowMapping, from_row_error_text(&e))
}

/// The error of an operation that could not get exclusive access to the storage.
pub fn err_no_access_to_storage() -> (r: ServerError)
    ensures
        r.spec_kind() == ErrorKind::NoAccessToStorage,
        r.spec_details() == NO_ACCESS_MESSAGE@,
{
    ServerError::new(ErrorKind::NoAccessToStorage, NO_ACCESS_MESSAGE.to_string())
}

} // verus!
