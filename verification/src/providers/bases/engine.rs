//! The SQLite engine as the store sees it.
//!
//! Statements go to the engine as text with parameters, rows come back as
//! cells, and failures come back as one of a few kinds. Nothing here knows
//! what a statement means: what the engine answers depends on the database
//! it holds, so the calls promise nothing about their results. What is fixed
//! is the passage in between: the engine is handed what the parameters hold,
//! and the store reads what the engine's values and failures hold.

use rusqlite::Connection;
use std::sync::{Mutex, MutexGuard};
use vstd::prelude::*;

verus! {

/// A connection to a database (`rusqlite::Connection`).
#[verifier::external_type_specification]
#[verifier::external_body]
pub struct ExConnection(rusqlite::Connection);

/// A failure of the engine (`rusqlite::Error`).
#[verifier::external_type_specification]
#[verifier::external_body]
pub struct ExEngineError(rusqlite::Error);

/// A value as the engine holds it (`rusqlite::types::Value`).
#[verifier::external_type_specification]
#[verifier::external_body]
pub struct ExEngineValue(rusqlite::types::Value);

/// The lock in front of the connection (`std::sync::Mutex`).
#[verifier::external_type_specification]
#[verifier::external_body]
#[verifier::reject_recursive_types(T)]
pub struct ExMutex<T: ?Sized>(std::sync::Mutex<T>);

/// Exclusive access for as long as it lives (`std::sync::MutexGuard`).
#[verifier::external_type_specification]
#[verifier::external_body]
#[verifier::reject_recursive_types(T)]
pub struct ExMutexGuard<'a, T: ?Sized + 'a>(std::sync::MutexGuard<'a, T>);

/// One parameter of a statement, or one cell of a row. A real number or a
/// blob in a row is reported as such, without its contents: the store keeps
/// neither.
#[derive(Clone, Debug, PartialEq, Eq)]
pub enum SqlValue {
    Null,
    Integer(i64),
    Text(String),
    Real,
    Blob,
}

/// What a [`SqlValue`] holds.
pub enum SqlCell {
    Null,
    Integer(int),
    Text(Seq<char>),
    Real,
    Blob,
}

impl View for SqlValue {
    type V = SqlCell;

    open spec fn view(&self) -> SqlCell {
        match self {
            SqlValue::Null => SqlCell::Null,
            SqlValue::Integer(i) => SqlCell::Integer(*i as int),
            SqlValue::Text(t) => SqlCell::Text(t@),
            SqlValue::Real => SqlCell::Real,
            SqlValue::Blob => SqlCell::Blob,
        }
    }
}

/// What a row, or a list of parameters, holds.
pub open spec fn cells_of(values: Seq<SqlValue>) -> Seq<SqlCell> {
    values.map_values(|v: SqlValue| v@)
}

/// Whether every one of `values` can be handed to the engine as a parameter.
pub open spec fn bindable(values: Seq<SqlValue>) -> bool {
    forall|i: int| 0 <= i < values.len() ==> !(#[trigger] values[i] is Real) && !(values[i] is Blob)
}

/// The kinds of failure of the engine that the store tells apart.
#[derive(Clone, Copy, Debug, PartialEq, Eq, Structural)]
pub enum DbFailure {
    /// A query for one row found none.
    NoRows,
    /// A query for one row found more than one.
    TooManyRows,
    /// SQLite refused or failed; `extended_code` is its extended result code.
    Engine { extended_code: i32 },
    /// Any other failure.
    Other,
}

/// What a value of the engine holds: its kind, with its contents where it is
/// an integer or a text.
pub uninterp spec fn spec_engine_cell(value: rusqlite::types::Value) -> SqlCell;

/// The kind of a failure of the engine: a query for one row that found none
/// or more than one, a failure of SQLite with its extended result code, or
/// any other.
pub uninterp spec fn spec_failure_kind(failure: rusqlite::Error) -> DbFailure;

/// What a list of values of the engine holds, value by value.
pub open spec fn engine_cells(values: Seq<rusqlite::types::Value>) -> Seq<SqlCell> {
    values.map_values(|v: rusqlite::types::Value| spec_engine_cell(v))
}

/// `Connection::open`: opens the database file at `path`, creating it where
/// there is none.
#[verifier::external_body]
pub(crate) fn open_file(path: &str) -> (opened: Result<Connection, rusqlite::Error>) {
    Connection::open(path)
}

/// `Connection::open_in_memory`: opens a new, empty in-memory database.
#[verifier::external_body]
pub(crate) fn open_memory() -> (opened: Result<Connection, rusqlite::Error>) {
    Connection::open_in_memory()
}

/// A parameter as the engine takes it: the `rusqlite::types::Value` of the
/// same kind with the same contents, so that it holds what the parameter
/// holds.
#[verifier::external_body]
fn to_engine(value: &SqlValue) -> (bound: rusqlite::types::Value)
    requires
        !(value is Real),
        !(value is Blob),
    ensures
        spec_engine_cell(bound) == value@,
{
    match value {
        SqlValue::Integer(i) => rusqlite::types::Value::Integer(*i),
        SqlValue::Text(t) => rusqlite::types::Value::Text(t.clone()),
        _ => rusqlite::types::Value::Null,
    }
}

/// A cell as the store reads it: the kind of the `rusqlite::types::Value`,
/// with its contents where it is an integer or a text, which is what the
/// value holds.
#[verifier::external_body]
fn from_engine(value: &rusqlite::types::Value) -> (cell: SqlValue)
    ensures
        cell@ == spec_engine_cell(*value),
{
    match value {
        rusqlite::types::Value::Null => SqlValue::Null,
        rusqlite::types::Value::Integer(i) => SqlValue::Integer(*i),
        rusqlite::types::Value::Text(t) => SqlValue::Text(t.clone()),
        rusqlite::types::Value::Real(_) => SqlValue::Real,
        rusqlite::types::Value::Blob(_) => SqlValue::Blob,
    }
}

/// `Connection::execute`: runs one statement that returns no rows and gives
/// the number of rows it changed.
#[verifier::external_body]
pub(crate) fn execute(conn: &Connection, sql: &str, bound: &Vec<rusqlite::types::Value>) -> (changed:
    Result<usize, rusqlite::Error>) {
    conn.execute(sql, rusqlite::params_from_iter(bound.iter()))
}

/// `Connection::execute_batch`: runs statements that take no parameters.
#[verifier::external_body]
pub(crate) fn execute_batch(conn: &Connection, sql: &str) -> (done: Result<(), rusqlite::Error>) {
    conn.execute_batch(sql)
}

/// `Connection::prepare` and `Statement::query_map`: runs a query and gives
/// every row it returns, value by value, in the order the engine returns
/// them.
#[verifier::external_body]
pub(crate) fn query_rows(conn: &Connection, sql: &str, bound: &Vec<rusqlite::types::Value>) -> (rows:
    Result<Vec<Vec<rusqlite::types::Value>>, rusqlite::Error>) {
    let mut stmt = conn.prepare(sql)?;
    let width = stmt.column_count();
    let rows = stmt.query_map(
        rusqlite::params_from_iter(bound.iter()),
        |row| (0..width).map(|column| row.get(column)).collect(),
    )?;
    rows.collect()
}

/// `Connection::query_one`: runs a query that is to return exactly one row
/// and gives that row, value by value. It fails where the query returns no
/// row, and where it returns more than one.
#[verifier::external_body]
pub(crate) fn query_one(conn: &Connection, sql: &str, bound: &Vec<rusqlite::types::Value>) -> (row:
    Result<Vec<rusqlite::types::Value>, rusqlite::Error>) {
    conn.query_one(
        sql,
        rusqlite::params_from_iter(bound.iter()),
        |row| (0..row.as_ref().column_count()).map(|column| row.get(column)).collect(),
    )
}

/// Tells the kinds of `rusqlite::Error` apart: `QueryReturnedNoRows`,
/// `QueryReturnedMoreThanOneRow`, `SqliteFailure` with the extended code of
/// its `ffi::Error`, and every other variant as one.
#[verifier::external_body]
pub(crate) fn describe(failure: &rusqlite::Error) -> (kind: DbFailure)
    ensures
        kind == spec_failure_kind(*failure),
{
    match failure {
        rusqlite::Error::QueryReturnedNoRows => DbFailure::NoRows,
        rusqlite::Error::QueryReturnedMoreThanOneRow => DbFailure::TooManyRows,
        rusqlite::Error::SqliteFailure(e, _) => DbFailure::Engine { extended_code: e.extended_code },
        _ => DbFailure::Other,
    }
}

/// `Mutex::new`.
#[verifier::external_body]
pub(crate) fn guard_connection(conn: Connection) -> (guarded: Mutex<Connection>) {
    Mutex::new(conn)
}

/// `Mutex::lock`: waits until no other holder is left and takes exclusive
/// access; `None` where a holder panicked and left the lock poisoned. The
/// access ends when the guard is dropped. A thread that already holds the
/// guard must not ask again: it would wait for itself.
#[verifier::external_body]
pub(crate) fn lock<'a>(shared: &'a Mutex<Connection>) -> (held: Option<MutexGuard<'a, Connection>>) {
    shared.lock().ok()
}

/// The connection behind a guard (`MutexGuard::deref`).
#[verifier::external_body]
pub(crate) fn connection_of<'a, 'b>(held: &'a MutexGuard<'b, Connection>) -> (conn: &'a Connection) {
    held
}

/// The parameters of a statement as the engine takes them, in order: each
/// holds what the parameter holds.
pub(crate) fn bind(params: &Vec<SqlValue>) -> (bound: Vec<rusqlite::types::Value>)
    requires
        bindable(params@),
    ensures
        engine_cells(bound@) == cells_of(params@),
{
    let mut bound: Vec<rusqlite::types::Value> = Vec::new();
    let mut at: usize = 0;
    while at < params.len()
        invariant
            at <= params.len(),
            bindable(params@),
            bound.len() == at,
            forall|i: int| 0 <= i < at ==> spec_engine_cell(#[trigger] bound[i]) == params[i]@,
        decreases params.len() - at,
    {
        bound.push(to_engine(&params[at]));
        at += 1;
    }
    bound
}

/// A row as the store reads it, cell by cell: each cell holds what the
/// engine's value holds.
pub(crate) fn read_row(row: &Vec<rusqlite::types::Value>) -> (cells: Vec<SqlValue>)
    ensures
        cells_of(cells@) == engine_cells(row@),
{
    let mut cells: Vec<SqlValue> = Vec::new();
    let mut at: usize = 0;
    while at < row.len()
        invariant
            at <= row.len(),
            cells.len() == at,
            forall|i: int| 0 <= i < at ==> (#[trigger] cells[i])@ == spec_engine_cell(row[i]),
        decreases row.len() - at,
    {
        cells.push(from_engine(&row[at]));
        at += 1;
    }
    cells
}

/// The rows of a query as the store reads them, in order.
pub(crate) fn read_rows(rows: &Vec<Vec<rusqlite::types::Value>>) -> (read: Vec<Vec<SqlValue>>)
    ensures
        read.len() == rows.len(),
        forall|i: int| 0 <= i < rows.len() ==> cells_of(#[trigger] read[i]@) == engine_cells(rows[i]@),
{
    let mut read: Vec<Vec<SqlValue>> = Vec::new();
    let mut at: usize = 0;
    while at < rows.len()
        invariant
            at <= rows.len(),
            read.len() == at,
            forall|i: int| 0 <= i < at ==> cells_of(#[trigger] read[i]@) == engine_cells(rows[i]@),
        decreases rows.len() - at,
    {
        read.push(read_row(&rows[at]));
        at += 1;
    }
    read
}

} // verus!
