//! The statements this layer issues against the database.

use crate::entity::{text_column, ColumnValue};
use crate::errors::{err_query, err_schema, ErrorKind, ServerError};
use scylla::transport::errors::QueryError;
use vstd::prelude::*;

verus! {

pub const CREATE_KEYSPACE_CQL: &'static str =
    "CREATE KEYSPACE IF NOT EXISTS ks WITH REPLICATION = {'class' : 'SimpleStrategy', 'replication_factor' : 1}";

pub const CREATE_TABLE_CQL: &'static str =
    "CREATE TABLE IF NOT EXISTS ks.t (a int, b int, c text, primary key (a, b))";

pub const INSERT_CQL: &'static str = "INSERT INTO ks.t (a, b, c) VALUES (?, ?, ?)";

pub const SELECT_ALL_CQL: &'static str = "SELECT a, b, c FROM ks.t";

/// Key and text of the row that initialization seeds when asked to.
pub const SEED_A: i32 = 3;

pub const SEED_B: i32 = 4;

pub const SEED_C: &'static str = "def";

/// A statement of this layer, with its bound values.
#[derive(Debug)]
pub enum Statement {
    /// Create the keyspace if it does not exist (simple strategy, one replica).
    CreateKeyspace,
    /// Create the table if it does not exist, keyed by `(a, b)`.
    CreateTable,
    /// Write the row `(a, b, c)`, replacing any row with the same key.
    Insert { a: i32, b: i32, c: String },
    /// Read every row of the table.
    SelectAll,
}

/// What a statement does, with its text as characters.
pub enum StatementModel {
    CreateKeyspace,
    CreateTable,
    Insert { a: i32, b: i32, c: Seq<char> },
    SelectAll,
}

impl View for Statement {
    type V = StatementModel;

    open spec fn view(&self) -> StatementModel {
        match self {
            Statement::CreateKeyspace => StatementModel::CreateKeyspace,
            Statement::CreateTable => StatementModel::CreateTable,
            Statement::Insert { a, b, c } => StatementModel::Insert { a: *a, b: *b, c: c@ },
            Statement::SelectAll => StatementModel::SelectAll,
        }
    }
}

/// The statement text sent to the database.
pub open spec fn cql_text(s: StatementModel) -> Seq<char> {
    match s {
        StatementModel::CreateKeyspace => CREATE_KEYSPACE_CQL@,
        StatementModel::CreateTable => CREATE_TABLE_CQL@,
        StatementModel::Insert { .. } => INSERT_CQL@,
        StatementModel::SelectAll => SELECT_ALL_CQL@,
    }
}

/// `vals` are the positional values bound to `s`: the three columns of an
/// insert, nothing for the other statements.
pub open spec fn binds(s: StatementModel, vals: Seq<Option<ColumnValue>>) -> bool {
    match s {
        StatementModel::Insert { a, b, c } => {
            &&& vals.len() == 3
            &&& vals[0] == Some(ColumnValue::Int(a))
            &&& vals[1] == Some(ColumnValue::Int(b))
            &&& text_column(vals[2]) == Some(c)
        },
        _ => vals.len() == 0,
    }
}

pub open spec fn is_schema_statement(s: StatementModel) -> bool {
    s is CreateKeyspace || s is CreateTable
}

/// The statements initialization issues, in order: create the keyspace, create
/// the table, and, only when `seed` is set, write the seed row.
pub open spec fn initialization_plan_spec(seed: bool) -> Seq<StatementModel> {
    let ddl = seq![StatementModel::CreateKeyspace, StatementModel::CreateTable];
    if seed {
        ddl.push(StatementModel::Insert { a: SEED_A, b: SEED_B, c: SEED_C@ })
    } else {
        ddl
    }
}

impl Statement {
    /// The statement text to execute.
    pub fn text(&self) -> (r: &'static str)
        ensures
            r@ == cql_text(self@),
    {
        match self {
            Statement::CreateKeyspace => CREATE_KEYSPACE_CQL,
            Statement::CreateTable => CREATE_TABLE_CQL,
            Statement::Insert { .. } => INSERT_CQL,
            Statement::SelectAll => SELECT_ALL_CQL,
        }
    }

    /// The values to bind, in the order of the statement's markers.
    pub fn values(&self) -> (r: Vec<Option<ColumnValue>>)
        ensures
            binds(self@, r@),
    {
        match self {
            Statement::Insert { a, b, c } => {
                let mut v: Vec<Option<ColumnValue>> = Vec::new();
                v.push(Some(ColumnValue::Int(*a)));
                v.push(Some(ColumnValue::Int(*b)));
                v.push(Some(ColumnValue::Text(c.clone())));
                v
            },
            _ => Vec::new(),
        }
    }

    /// Whether this is a schema (DDL) statement.
    pub fn is_schema(&self) -> (r: bool)
        ensures
            r == is_schema_statement(self@),
    {
        match self {
            Statement::CreateKeyspace | Statement::CreateTable => true,
            _ => false,
        }
    }
}

/// The statement that writes the row `(a, b, c)`.
pub fn insert_statement(a: i32, b: i32, c: String) -> (r: Statement)
    ensures
        r@ == (StatementModel::Insert { a, b, c: c@ }),
{
    Statement::Insert { a, b, c }
}

/// The statement that reads every row.
pub fn select_all_statement() -> (r: Statement)
    ensures
        r@ == StatementModel::SelectAll,
{
    Statement::SelectAll
}

/// The statements initialization issues: see `initialization_plan_spec`.
pub fn initialization_plan(seed: bool) -> (r: Vec<Statement>)
    ensures
        r@.len() == initialization_plan_spec(seed).len(),
        forall|i: int| 0 <= i < r@.len() ==> (#[trigger] r@[i])@ == initialization_plan_spec(seed)[i],
{
    let mut plan: Vec<Statement> = Vec::new();
    plan.push(Statement::CreateKeyspace);
    plan.push(Statement::CreateTable);
    if seed {
        plan.push(Statement::Insert { a: SEED_A, b: SEED_B, c: SEED_C.to_string() });
    }
    plan
}

/// Converts the failure of `stmt` into an error: a schema error for a schema
/// statement, a query error for any other.
pub fn err_execution(stmt: &Statement, e: QueryError) -> (r: ServerError)
    ensures
        is_schema_statement(stmt@) ==> r.spec_kind() == ErrorKind::Schema,
        !is_schema_statement(stmt@) ==> r.spec_kind() == ErrorKind::Query,
{
    if stmt.is_schema() {
        err_schema(e)
    } else {
        err_query(e)
    }
}

pub const TIMEOUT_MESSAGE: &'static str = "statement timed out";

/// The error of a statement that did not complete in time: a schema error for
/// a schema statement, a query error for any other.
pub fn err_timeout(stmt: &Statement) -> (r: ServerError)
    ensures
        is_schema_statement(stmt@) ==> r.spec_kind() == ErrorKind::Schema,
        !is_schema_statement(stmt@) ==> r.spec_kind() == ErrorKind::Query,
        r.spec_details() == TIMEOUT_MESSAGE@,
{
    let kind = if stmt.is_schema() {
        ErrorKind::Schema
    } else {
        ErrorKind::Query
    };
    ServerError::new(kind, TIMEOUT_MESSAGE.to_string())
}

} // verus!
