//! The values that travel between callers and the engine: bound parameters,
//! result sets, and the errors a statement can come back with.

use vstd::prelude::*;
use vstd::string::StringSliceAdditionalSpecFns;

/// One SQL value, bound to a parameter or read from a cell: null, a 64-bit
/// signed integer, a double, a UTF-8 string or a byte sequence.
pub use rusqlite::types::Value;

verus! {

/// The storage class a column was declared with.
#[derive(Clone, Copy, Debug, PartialEq, Eq, Structural)]
pub enum Type {
    Integer,
    Real,
    Text,
    Blob,
    Null,
}

/// One column of a result set.
#[derive(Clone, Debug, PartialEq)]
pub struct Column {
    pub name: String,
    /// The declared type, where the engine reports one that `Type::parse` accepts.
    pub ty: Option<Type>,
}

/// One row of a result set: a value per column, in column order.
#[derive(Clone, Debug, PartialEq)]
pub struct ResultRow {
    pub values: Vec<Value>,
}

/// The columns of a query and the rows it yielded, in the order they came.
#[derive(Clone, Debug, PartialEq)]
pub struct ResultSet {
    pub columns: Vec<Column>,
    pub rows: Vec<ResultRow>,
}

/// What a statement that ran to completion answers with.
#[derive(Clone, Debug, PartialEq)]
pub enum QueryResponse {
    ResultSet(ResultSet),
}

/// Why a statement came back without a response.
#[derive(Clone, Copy, Debug, PartialEq, Eq, Structural)]
pub enum ErrorCode {
    /// The engine failed the statement and reported this extended result code.
    Engine(i32),
    /// The statement was refused before the engine reported a result code.
    SqlError,
    /// The transaction outlived its time limit and was rolled back.
    TxTimeout,
    /// The worker that owns the connection could not be reached.
    Internal,
}

/// A statement that came back without a response: why, and what the engine
/// or the worker had to say.
#[derive(Clone, Debug, PartialEq)]
pub struct QueryError {
    pub code: ErrorCode,
    pub message: String,
}

/// What a submission resolves to.
pub type QueryResult = Result<QueryResponse, QueryError>;

/// The ASCII lower-case form of a byte.
pub open spec fn ascii_lower(byte: u8) -> u8 {
    if 65 <= byte && byte <= 90 {
        (byte + 32) as u8
    } else {
        byte
    }
}

/// Whether `text` is `word` up to ASCII case. `word` is in lower case.
pub open spec fn spells(text: Seq<u8>, word: Seq<u8>) -> bool {
    &&& text.len() == word.len()
    &&& forall|i: int| 0 <= i < text.len() ==> ascii_lower(#[trigger] text[i]) == word[i]
}

/// The bytes of `integer`.
pub open spec fn word_integer() -> Seq<u8> {
    seq![105u8, 110u8, 116u8, 101u8, 103u8, 101u8, 114u8]
}

/// The bytes of `real`.
pub open spec fn word_real() -> Seq<u8> {
    seq![114u8, 101u8, 97u8, 108u8]
}

/// The bytes of `text`.
pub open spec fn word_text() -> Seq<u8> {
    seq![116u8, 101u8, 120u8, 116u8]
}

/// The bytes of `blob`.
pub open spec fn word_blob() -> Seq<u8> {
    seq![98u8, 108u8, 111u8, 98u8]
}

/// The bytes of `null`.
pub open spec fn word_null() -> Seq<u8> {
    seq![110u8, 117u8, 108u8, 108u8]
}

fn spells_word(text: &[u8], word: &[u8]) -> (same: bool)
    ensures
        same == spells(text@, word@),
{
    if text.len() != word.len() {
        return false;
    }
    let mut i: usize = 0;
    while i < text.len()
        invariant
            i <= text.len(),
            text.len() == word.len(),
            forall|j: int| 0 <= j < i ==> ascii_lower(#[trigger] text@[j]) == word@[j],
        decreases text.len() - i,
    {
        let byte = text[i];
        let lower = if 65 <= byte && byte <= 90 {
            byte + 32
        } else {
            byte
        };
        if lower != word[i] {
            return false;
        }
        i += 1;
    }
    true
}

impl Type {
    /// The type that a declaration names: one of the words `integer`,
    /// `real`, `text`, `blob` and `null`, in any mix of upper and lower
    /// case. Any other declaration names none.
    pub open spec fn of_declaration(decl: Seq<u8>) -> Option<Type> {
        if spells(decl, word_integer()) {
            Some(Type::Integer)
        } else if spells(decl, word_real()) {
            Some(Type::Real)
        } else if spells(decl, word_text()) {
            Some(Type::Text)
        } else if spells(decl, word_blob()) {
            Some(Type::Blob)
        } else if spells(decl, word_null()) {
            Some(Type::Null)
        } else {
            None
        }
    }

    /// Reads the type that a column was declared with.
    pub fn parse(decl: &str) -> (ty: Option<Type>)
        ensures
            ty == Type::of_declaration(decl.spec_bytes()),
    {
        let bytes = decl.as_bytes();
        let w_integer: [u8; 7] = [105, 110, 116, 101, 103, 101, 114];
        let w_real: [u8; 4] = [114, 101, 97, 108];
        let w_text: [u8; 4] = [116, 101, 120, 116];
        let w_blob: [u8; 4] = [98, 108, 111, 98];
        let w_null: [u8; 4] = [110, 117, 108, 108];
        assert(w_integer@ =~= word_integer());
        assert(w_real@ =~= word_real());
        assert(w_text@ =~= word_text());
        assert(w_blob@ =~= word_blob());
        assert(w_null@ =~= word_null());
        if spells_word(bytes, w_integer.as_slice()) {
            Some(Type::Integer)
        } else if spells_word(bytes, w_real.as_slice()) {
            Some(Type::Real)
        } else if spells_word(bytes, w_text.as_slice()) {
            Some(Type::Text)
        } else if spells_word(bytes, w_blob.as_slice()) {
            Some(Type::Blob)
        } else if spells_word(bytes, w_null.as_slice()) {
            Some(Type::Null)
        } else {
            None
        }
    }
}

impl Column {
    /// The column that the engine describes by `name` and by the type it was
    /// declared with. A column without a declared type, or with one that
    /// names no type, has none.
    pub open spec fn described(name: String, decl: Option<String>) -> Column {
        Column {
            name,
            ty: match decl {
                Some(decl) => Type::of_declaration(vstd::utf8::encode_utf8(decl@)),
                None => None,
            },
        }
    }

    /// Builds the column that the engine describes by `name` and `decl`.
    pub fn describe(name: String, decl: Option<String>) -> (column: Column)
        ensures
            column == Column::described(name, decl),
    {
        let ty = match &decl {
            Some(decl) => Type::parse(decl.as_str()),
            None => None,
        };
        Column { name, ty }
    }
}

/// A failed call into the engine, as plain values.
#[derive(Clone, Debug, PartialEq, Eq)]
pub struct EngineError {
    /// The extended result code that the engine reported, if the failure
    /// came from the engine itself.
    pub code: Option<i32>,
    /// What went wrong, in words.
    pub message: String,
}

/// The engine's primary result code for a database that is locked by
/// another connection.
pub const BUSY: i32 = 5;

/// The primary result code within an extended result code: its low byte.
pub open spec fn primary_code(code: i32) -> i32 {
    code & 0xff
}

impl EngineError {
    /// Whether the engine reported that the database was busy.
    pub open spec fn busy(self) -> bool {
        self.code matches Some(code) && primary_code(code) == BUSY
    }

    /// Whether the engine reported that the database was busy.
    pub fn is_busy(&self) -> (busy: bool)
        ensures
            busy == self.busy(),
    {
        match self.code {
            Some(code) => code & 0xff == BUSY,
            None => false,
        }
    }
}

impl ErrorCode {
    /// Whether the code stands for a failure of the engine.
    pub open spec fn from_engine(self) -> bool {
        self is Engine || self is SqlError
    }

    /// The code under which a failure of the engine is reported.
    pub open spec fn of_engine(code: Option<i32>) -> ErrorCode {
        match code {
            Some(code) => ErrorCode::Engine(code),
            None => ErrorCode::SqlError,
        }
    }
}

impl QueryError {
    /// An error with the given code and message.
    pub fn new(code: ErrorCode, message: String) -> (e: QueryError)
        ensures
            e.code == code,
            e.message == message,
    {
        QueryError { code, message }
    }

    /// Reports a failure of the engine under the engine's own result code,
    /// with the engine's message.
    pub fn from_engine(error: EngineError) -> (e: QueryError)
        ensures
            e.code == ErrorCode::of_engine(error.code),
            e.code.from_engine(),
            e.message == error.message,
    {
        let code = match error.code {
            Some(code) => ErrorCode::Engine(code),
            None => ErrorCode::SqlError,
        };
        QueryError { code, message: error.message }
    }
}

impl ResultRow {
    /// The number of values in the row.
    pub open spec fn width(self) -> nat {
        self.values@.len()
    }
}

impl ResultSet {
    /// Every row holds exactly one value per column.
    pub open spec fn well_formed(self) -> bool {
        forall|i: int|
            0 <= i < self.rows@.len() ==> (#[trigger] self.rows@[i]).width() == self.columns@.len()
    }

    /// A result set over `columns` that holds no row yet.
    pub fn new(columns: Vec<Column>) -> (rs: ResultSet)
        ensures
            rs.columns == columns,
            rs.rows@.len() == 0,
            rs.well_formed(),
    {
        ResultSet { columns, rows: Vec::new() }
    }

    /// Appends a row that holds one value per column.
    pub fn push_row(&mut self, row: ResultRow)
        requires
            old(self).well_formed(),
            row.width() == old(self).columns@.len(),
        ensures
            final(self).columns == old(self).columns,
            final(self).rows@ == old(self).rows@.push(row),
            final(self).well_formed(),
    {
        self.rows.push(row);
    }
}

} // verus!
