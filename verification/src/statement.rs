//! Statements as the worker sees them, and the transaction state machine
//! that their classification drives.

use vstd::prelude::*;

verus! {

/// What a statement does to the transaction it runs in. The tag is assigned
/// by whoever builds the statement; nothing here reads the SQL text.
#[derive(Clone, Copy, Debug, PartialEq, Eq, Structural)]
pub enum TransactionKind {
    /// The statement opens a transaction.
    TxnBegin,
    /// The statement closes the open transaction.
    TxnEnd,
    /// The statement leaves transaction boundaries alone.
    Other,
}

/// A statement to run: its SQL text and its classification.
#[derive(Clone, Debug, PartialEq, Eq)]
pub struct SqlStatement {
    pub stmt: String,
    pub kind: TransactionKind,
}

/// Where a connection stands with respect to transactions.
#[derive(Clone, Copy, Debug, PartialEq, Eq, Structural)]
pub enum State {
    /// No transaction is open.
    Start,
    /// A transaction is open.
    TxnOpened,
    /// The open transaction has just been closed.
    TxnClosed,
    /// The statements seen so far cannot have come in that order.
    Invalid,
}

impl State {
    /// The transition table.
    ///
    /// | state       | kind       | next        |
    /// |-------------|------------|-------------|
    /// | any         | `Other`    | unchanged   |
    /// | `Start`     | `TxnBegin` | `TxnOpened` |
    /// | `TxnOpened` | `TxnEnd`   | `TxnClosed` |
    /// | otherwise   |            | `Invalid`   |
    ///
    /// The last row covers a begin inside an open or just closed transaction,
    /// an end with no transaction open, and every begin or end once the state
    /// is `Invalid`.
    pub open spec fn next(self, kind: TransactionKind) -> State {
        match (self, kind) {
            (state, TransactionKind::Other) => state,
            (State::Start, TransactionKind::TxnBegin) => State::TxnOpened,
            (State::TxnOpened, TransactionKind::TxnEnd) => State::TxnClosed,
            _ => State::Invalid,
        }
    }

    /// Advances the state by one statement of the given kind.
    pub fn step(&mut self, kind: TransactionKind)
        ensures
            *final(self) == old(self).next(kind),
    {
        let next = match (*self, kind) {
            (state, TransactionKind::Other) => state,
            (State::Start, TransactionKind::TxnBegin) => State::TxnOpened,
            (State::TxnOpened, TransactionKind::TxnEnd) => State::TxnClosed,
            _ => State::Invalid,
        };
        *self = next;
    }

    /// Forces the state back to `Start`.
    pub fn reset(&mut self)
        ensures
            *final(self) == State::Start,
    {
        *self = State::Start;
    }
}

/// A statement that leaves transaction boundaries alone leaves every state
/// as it is.
pub proof fn lemma_other_keeps_state(state: State)
    ensures
        state.next(TransactionKind::Other) == state,
{
}

/// `Invalid` is a sink: no statement leads out of it.
pub proof fn lemma_invalid_is_sink(kind: TransactionKind)
    ensures
        State::Invalid.next(kind) == State::Invalid,
{
}

/// A transaction is opened from `Start` only and by a begin only, and is
/// closed from `TxnOpened` only and by an end only.
pub proof fn lemma_boundaries(state: State, kind: TransactionKind)
    ensures
        state.next(kind) == State::TxnOpened && state != State::TxnOpened <==> state == State::Start
            && kind == TransactionKind::TxnBegin,
        state.next(kind) == State::TxnClosed && state != State::TxnClosed <==> state
            == State::TxnOpened && kind == TransactionKind::TxnEnd,
{
}

} // verus!
