//! The embedded engine, as far as this library calls it.
//!
//! Everything in this file is taken on trust: the types are the engine's
//! own and opaque here, and each function makes one call into `rusqlite`.
//! None of them promises anything about what the engine answers, which
//! depends on the database; of an error they say that its code and its
//! text are read from the error alone.

use vstd::prelude::*;

verus! {

/// `rusqlite::Connection`: an open connection to a database.
#[verifier::external_type_specification]
#[verifier::external_body]
pub struct ExConnection(rusqlite::Connection);

/// `rusqlite::Statement`: a statement prepared on a connection.
#[verifier::external_type_specification]
#[verifier::external_body]
pub struct ExStatement<'conn>(rusqlite::Statement<'conn>);

/// `rusqlite::Rows`: the cursor over the rows of a running query.
#[verifier::external_type_specification]
#[verifier::external_body]
pub struct ExRows<'stmt>(rusqlite::Rows<'stmt>);

/// `rusqlite::Row`: the row a cursor stands on.
#[verifier::external_type_specification]
#[verifier::external_body]
pub struct ExRow<'stmt>(rusqlite::Row<'stmt>);

/// `rusqlite::Error`: why a call into the engine failed.
#[verifier::external_type_specification]
#[verifier::external_body]
pub struct ExError(rusqlite::Error);

/// `rusqlite::types::Value`: one SQL value, which is null, a 64-bit signed
/// integer, a double, a UTF-8 string or a byte sequence.
#[verifier::external_type_specification]
#[verifier::external_body]
pub struct ExValue(rusqlite::types::Value);

/// `Connection::prepare`: compiles `sql` on the connection.
#[verifier::external_body]
pub(crate) fn prepare<'conn>(conn: &'conn rusqlite::Connection, sql: &str) -> (prepared: Result<
    rusqlite::Statement<'conn>,
    rusqlite::Error,
>) {
    conn.prepare(sql)
}

/// `Statement::column_count`: the number of columns in the statement's
/// result, as the engine counts them at the time of the call.
#[verifier::external_body]
pub(crate) fn column_count(stmt: &rusqlite::Statement<'_>) -> (count: usize) {
    stmt.column_count()
}

/// `Statement::query` on `params_from_iter`: binds `params` to the
/// statement's parameters, the first value to the first parameter, and
/// starts the query. Fails if the statement has another number of
/// parameters.
#[verifier::external_body]
pub(crate) fn query<'stmt>(
    stmt: &'stmt mut rusqlite::Statement<'_>,
    params: Vec<rusqlite::types::Value>,
) -> (cursor: Result<rusqlite::Rows<'stmt>, rusqlite::Error>) {
    stmt.query(rusqlite::params_from_iter(params))
}

/// `Rows::next`: steps the query and hands out the row it has come to, or
/// nothing once the rows are used up.
#[verifier::external_body]
pub(crate) fn next_row<'a, 'stmt>(rows: &'a mut rusqlite::Rows<'stmt>) -> (row: Result<
    Option<&'a rusqlite::Row<'stmt>>,
    rusqlite::Error,
>) {
    rows.next()
}

/// `Row::get_ref`, and `Row::get` as a `String` where the cell is text: the
/// value in the cell at `index`. An index past the last column and text that
/// is not UTF-8 come back as errors.
#[verifier::external_body]
pub(crate) fn cell(row: &rusqlite::Row<'_>, index: usize) -> (value: Result<
    rusqlite::types::Value,
    rusqlite::Error,
>) {
    match row.get_ref(index)? {
        rusqlite::types::ValueRef::Text(_) => row.get::<usize, String>(index).map(
            rusqlite::types::Value::Text,
        ),
        other => Ok(rusqlite::types::Value::from(other)),
    }
}

/// `Connection::execute` without parameters: runs `sql`, which must yield no
/// rows, and returns how many rows it changed.
#[verifier::external_body]
pub(crate) fn execute(conn: &rusqlite::Connection, sql: &str) -> (changed: Result<
    usize,
    rusqlite::Error,
>) {
    conn.execute(sql, ())
}

/// The extended result code that an error of the engine carries, if the
/// error came from the engine itself: what `Error::sqlite_error` reads from
/// it.
pub uninterp spec fn reported_code(error: rusqlite::Error) -> Option<i32>;

/// The text that an error of the engine is shown as: what its `Display`
/// writes.
pub uninterp spec fn reported_message(error: rusqlite::Error) -> Seq<char>;

/// `Error::sqlite_error`: the extended result code that the engine
/// reported, if the error came from the engine itself. The code is read
/// from the error and depends on nothing else.
#[verifier::external_body]
pub(crate) fn error_code(error: &rusqlite::Error) -> (code: Option<i32>)
    ensures
        code == reported_code(*error),
{
    error.sqlite_error().map(|e| e.extended_code)
}

/// The error's `Display` text, which is written from the error and depends
/// on nothing else.
#[verifier::external_body]
pub(crate) fn error_message(error: &rusqlite::Error) -> (message: String)
    ensures
        message@ == reported_message(*error),
{
    error.to_string()
}

} // verus!
