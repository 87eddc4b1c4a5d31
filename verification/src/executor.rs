//! Running one statement on an open connection.

use vstd::prelude::*;
use crate::engine;
use crate::query::{Column, EngineError, ErrorCode, QueryError, QueryResponse, QueryResult, ResultRow, ResultSet};
use crate::statement::SqlStatement;

verus! {

/// Reports a failed call into the engine under the engine's result code,
/// with the engine's message.
fn engine_failure(error: &rusqlite::Error) -> (e: QueryError)
    ensures
        e.code == ErrorCode::of_engine(engine::reported_code(*error)),
        e.message@ == engine::reported_message(*error),
        e.code.from_engine(),
{
    let code = engine::error_code(error);
    let message = engine::error_message(error);
    QueryError::from_engine(EngineError { code, message })
}

/// Builds the columns of a result set from what the engine says of each:
/// its name and, where it has one, the type it was declared with.
pub fn describe_columns(described: &Vec<(String, Option<String>)>) -> (columns: Vec<Column>)
    ensures
        columns_described(columns@, described@),
{
    let mut columns: Vec<Column> = Vec::new();
    let mut i: usize = 0;
    while i < described.len()
        invariant
            i <= described@.len(),
            columns@.len() == i,
            forall|j: int|
                0 <= j < i ==> #[trigger] columns@[j] == Column::described(
                    described@[j].0,
                    described@[j].1,
                ),
        decreases described.len() - i,
    {
        let name = described[i].0.clone();
        let decl = match &described[i].1 {
            Some(decl) => Some(decl.clone()),
            None => None,
        };
        columns.push(Column::describe(name, decl));
        i += 1;
    }
    columns
}

/// Reads the first `width` cells of the row the cursor stands on, in column
/// order.
fn read_row(row: &rusqlite::Row<'_>, width: usize) -> (read: Result<ResultRow, QueryError>)
    ensures
        read matches Ok(row) ==> row.width() == width,
        read matches Err(e) ==> e.code.from_engine(),
{
    let mut values: Vec<rusqlite::types::Value> = Vec::new();
    let mut i: usize = 0;
    while i < width
        invariant
            i <= width,
            values@.len() == i,
        decreases width - i,
    {
        match engine::cell(row, i) {
            Ok(value) => {
                values.push(value);
            },
            Err(error) => {
                return Err(engine_failure(&error));
            },
        }
        i += 1;
    }
    Ok(ResultRow { values })
}

/// The columns that `describe_columns` builds from `described`.
pub open spec fn columns_described(
    columns: Seq<Column>,
    described: Seq<(String, Option<String>)>,
) -> bool {
    &&& columns.len() == described.len()
    &&& forall|i: int|
        0 <= i < described.len() ==> #[trigger] columns[i] == Column::described(
            described[i].0,
            described[i].1,
        )
}

/// Holds the number of columns that the engine counts in a statement's
/// result against the columns that were described: any other number than
/// were described is an error.
pub fn check_width(count: usize, described: &Vec<(String, Option<String>)>) -> (checked: Result<
    (),
    QueryError,
>)
    ensures
        checked is Err <==> count != described@.len(),
        checked matches Err(e) ==> e.code == ErrorCode::SqlError && e.message@
            == "the statement has other columns than were described"@,
{
    if count != described.len() {
        Err(
            QueryError::new(
                ErrorCode::SqlError,
                "the statement has other columns than were described".to_string(),
            ),
        )
    } else {
        Ok(())
    }
}

/// Whether a query has more rows to give.
#[derive(Clone, Copy, Debug, PartialEq, Eq, Structural)]
pub enum Step {
    /// A row was read; the query is to be stepped again.
    More,
    /// The rows are used up.
    Done,
}

/// Takes what one step of a query came to into the result set: a row is
/// appended after the rows read so far, the end of the rows leaves the set
/// as it is, and a failure is handed on, so that no answer is made of the
/// rows read before it.
pub fn collect(set: &mut ResultSet, stepped: Result<Option<ResultRow>, QueryError>) -> (next:
    Result<Step, QueryError>)
    requires
        old(set).well_formed(),
        stepped matches Ok(Some(row)) ==> row.width() == old(set).columns@.len(),
    ensures
        final(set).well_formed(),
        final(set).columns == old(set).columns,
        stepped matches Ok(Some(row)) ==> next == Ok::<Step, QueryError>(Step::More)
            && final(set).rows@ == old(set).rows@.push(row),
        stepped matches Ok(None) ==> next == Ok::<Step, QueryError>(Step::Done)
            && final(set).rows@ == old(set).rows@,
        stepped matches Err(e) ==> next == Err::<Step, QueryError>(e)
            && final(set).rows@ == old(set).rows@,
{
    match stepped {
        Ok(Some(row)) => {
            set.push_row(row);
            Ok(Step::More)
        },
        Ok(None) => Ok(Step::Done),
        Err(e) => Err(e),
    }
}

/// Steps the query and reads the row it has come to, `width` cells wide.
fn step(cursor: &mut rusqlite::Rows<'_>, width: usize) -> (stepped: Result<
    Option<ResultRow>,
    QueryError,
>)
    ensures
        stepped matches Ok(Some(row)) ==> row.width() == width,
        stepped matches Err(e) ==> e.code.from_engine(),
{
    match engine::next_row(cursor) {
        Ok(Some(row)) => match read_row(row, width) {
            Ok(row) => Ok(Some(row)),
            Err(e) => Err(e),
        },
        Ok(None) => Ok(None),
        Err(error) => Err(engine_failure(&error)),
    }
}

/// Runs `stmt` on the connection with `params` bound to its parameters, the
/// first value to the first parameter, and collects every row it yields.
/// `described` holds what the engine says of each column of the statement's
/// result, in column order: its name and, where it has one, the type it was
/// declared with.
///
/// The answer holds the columns built from `described` and the rows that
/// `collect` took in, each row with one value per column. A failure to
/// prepare the statement, to bind the parameters or to step to a row ends
/// the run and is reported under the engine's result code, and so is a
/// statement that `check_width` refuses; nothing is run a second time.
pub fn execute_query(
    conn: &rusqlite::Connection,
    stmt: &SqlStatement,
    params: Vec<rusqlite::types::Value>,
    described: &Vec<(String, Option<String>)>,
) -> (result: QueryResult)
    ensures
        result matches Ok(QueryResponse::ResultSet(set)) ==> set.well_formed()
            && columns_described(set.columns@, described@),
        result matches Err(e) ==> e.code.from_engine(),
{
    let mut prepared = match engine::prepare(conn, stmt.stmt.as_str()) {
        Ok(prepared) => prepared,
        Err(error) => {
            return Err(engine_failure(&error));
        },
    };
    match check_width(engine::column_count(&prepared), described) {
        Ok(()) => {},
        Err(e) => {
            return Err(e);
        },
    }
    let mut set = ResultSet::new(describe_columns(described));
    let width = set.columns.len();
    let mut cursor = match engine::query(&mut prepared, params) {
        Ok(cursor) => cursor,
        Err(error) => {
            return Err(engine_failure(&error));
        },
    };
    loop
        invariant
            set.well_formed(),
            set.columns@.len() == width,
            columns_described(set.columns@, described@),
        decreases usize::MAX - set.rows.len(),
    {
        let stepped = step(&mut cursor, width);
        match collect(&mut set, stepped) {
            Ok(Step::More) => {},
            Ok(Step::Done) => {
                break ;
            },
            Err(e) => {
                return Err(e);
            },
        }
    }
    Ok(QueryResponse::ResultSet(set))
}

/// The statement that undoes the open transaction.
pub fn rollback_statement() -> (sql: &'static str)
    ensures
        sql@ == "rollback transaction;"@,
{
    "rollback transaction;"
}

/// Undoes the transaction that is open on the connection: runs
/// `rollback_statement` on it, without parameters.
pub fn rollback(conn: &rusqlite::Connection) -> (undone: Result<(), QueryError>)
    ensures
        undone matches Err(e) ==> e.code.from_engine(),
{
    match engine::execute(conn, rollback_statement()) {
        Ok(_) => Ok(()),
        Err(error) => Err(engine_failure(&error)),
    }
}

} // verus!
