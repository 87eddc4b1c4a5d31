use libsql_db::statement::{State, TransactionKind};

fn stepped(from: State, kind: TransactionKind) -> State {
    let mut state = from;
    state.step(kind);
    state
}

#[test]
fn begin_opens_a_transaction_from_start() {
    assert_eq!(stepped(State::Start, TransactionKind::TxnBegin), State::TxnOpened);
}

#[test]
fn end_closes_the_open_transaction() {
    assert_eq!(stepped(State::TxnOpened, TransactionKind::TxnEnd), State::TxnClosed);
}

#[test]
fn other_keeps_every_state() {
    for state in [State::Start, State::TxnOpened, State::TxnClosed, State::Invalid] {
        assert_eq!(stepped(state, TransactionKind::Other), state);
    }
}

#[test]
fn statements_out_of_order_lead_to_invalid() {
    assert_eq!(stepped(State::Start, TransactionKind::TxnEnd), State::Invalid);
    assert_eq!(stepped(State::TxnOpened, TransactionKind::TxnBegin), State::Invalid);
    assert_eq!(stepped(State::TxnClosed, TransactionKind::TxnBegin), State::Invalid);
    assert_eq!(stepped(State::TxnClosed, TransactionKind::TxnEnd), State::Invalid);
}

#[test]
fn invalid_is_a_sink() {
    assert_eq!(stepped(State::Invalid, TransactionKind::TxnBegin), State::Invalid);
    assert_eq!(stepped(State::Invalid, TransactionKind::TxnEnd), State::Invalid);
    assert_eq!(stepped(State::Invalid, TransactionKind::Other), State::Invalid);
}

#[test]
fn reset_forces_start() {
    for from in [State::Start, State::TxnOpened, State::TxnClosed, State::Invalid] {
        let mut state = from;
        state.reset();
        assert_eq!(state, State::Start);
    }
}

#[test]
fn a_whole_transaction_walks_the_table() {
    let mut state = State::Start;
    state.step(TransactionKind::Other);
    state.step(TransactionKind::TxnBegin);
    state.step(TransactionKind::Other);
    assert_eq!(state, State::TxnOpened);
    state.step(TransactionKind::TxnEnd);
    assert_eq!(state, State::TxnClosed);
}
