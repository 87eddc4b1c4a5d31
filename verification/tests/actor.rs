use libsql_db::actor::{Actor, Verdict};
use libsql_db::executor::{execute_query, rollback};
use libsql_db::query::{ErrorCode, QueryError, QueryResponse, QueryResult, ResultSet};
use libsql_db::statement::{SqlStatement, State, TransactionKind};

fn done() -> QueryResult {
    Ok(QueryResponse::ResultSet(ResultSet { columns: vec![], rows: vec![] }))
}

fn failed() -> QueryResult {
    Err(QueryError::new(ErrorCode::Engine(1), String::from("no")))
}

fn opened(timeout: u64, now: u64) -> Actor {
    let mut actor = Actor::new(timeout);
    assert_eq!(actor.record(TransactionKind::TxnBegin, &done(), now), Verdict::Continue);
    actor
}

#[test]
fn a_new_actor_has_nothing_open() {
    let actor = Actor::new(5000);
    assert_eq!(actor.state(), State::Start);
    assert_eq!(actor.deadline(), None);
    assert!(!actor.timed_out());
    assert_eq!(actor.timeout(), 5000);
}

#[test]
fn begin_arms_the_deadline() {
    let actor = opened(5000, 1200);
    assert_eq!(actor.state(), State::TxnOpened);
    assert_eq!(actor.deadline(), Some(6200));
}

#[test]
fn end_disarms_the_deadline_and_resets() {
    let mut actor = opened(5000, 1200);
    assert_eq!(actor.record(TransactionKind::TxnEnd, &done(), 1300), Verdict::Continue);
    assert_eq!(actor.state(), State::Start);
    assert_eq!(actor.deadline(), None);
}

#[test]
fn other_changes_nothing() {
    let mut idle = Actor::new(5000);
    assert_eq!(idle.record(TransactionKind::Other, &done(), 10), Verdict::Continue);
    assert_eq!(idle.state(), State::Start);
    assert_eq!(idle.deadline(), None);
    let mut busy = opened(5000, 1200);
    assert_eq!(busy.record(TransactionKind::Other, &done(), 4000), Verdict::Continue);
    assert_eq!(busy.record(TransactionKind::Other, &failed(), 4100), Verdict::Continue);
    assert_eq!(busy.state(), State::TxnOpened);
    assert_eq!(busy.deadline(), Some(6200));
}

#[test]
fn statements_out_of_order_stop_the_worker() {
    let mut idle = Actor::new(5000);
    assert_eq!(idle.record(TransactionKind::TxnEnd, &done(), 10), Verdict::Abort);
    assert_eq!(idle.state(), State::Start);
    assert_eq!(idle.deadline(), None);
    let mut busy = opened(5000, 1200);
    assert_eq!(busy.record(TransactionKind::TxnBegin, &done(), 1300), Verdict::Abort);
    assert_eq!(busy.state(), State::TxnOpened);
    assert_eq!(busy.deadline(), Some(6200));
}

#[test]
fn a_failed_statement_changes_nothing() {
    let mut idle = Actor::new(5000);
    assert_eq!(idle.record(TransactionKind::TxnBegin, &failed(), 10), Verdict::Continue);
    assert_eq!(idle.state(), State::Start);
    assert_eq!(idle.deadline(), None);
    assert_eq!(idle.record(TransactionKind::TxnEnd, &failed(), 10), Verdict::Continue);
    let mut busy = opened(5000, 1200);
    assert_eq!(busy.record(TransactionKind::TxnEnd, &failed(), 1300), Verdict::Continue);
    assert_eq!(busy.record(TransactionKind::TxnBegin, &failed(), 1300), Verdict::Continue);
    assert_eq!(busy.state(), State::TxnOpened);
    assert_eq!(busy.deadline(), Some(6200));
}

#[test]
fn a_begin_that_the_engine_refuses_opens_nothing() {
    let conn = rusqlite::Connection::open_in_memory().unwrap();
    let begin = SqlStatement { stmt: String::from("begin nonsense"), kind: TransactionKind::TxnBegin };
    let mut actor = Actor::new(5000);
    assert_eq!(actor.accept(), Ok(()));
    let result = execute_query(&conn, &begin, vec![], &vec![]);
    assert!(result.is_err());
    assert_eq!(actor.record(begin.kind, &result, 100), Verdict::Continue);
    assert_eq!(actor.state(), State::Start);
    assert_eq!(actor.deadline(), None);
    assert!(conn.is_autocommit());
}

#[test]
fn the_deadline_is_told_to_the_next_submission_only() {
    let mut actor = opened(5000, 1200);
    actor.expire();
    assert_eq!(actor.state(), State::Start);
    assert_eq!(actor.deadline(), None);
    assert!(actor.timed_out());
    assert_eq!(
        actor.accept(),
        Err(QueryError { code: ErrorCode::TxTimeout, message: String::from("transaction timedout") })
    );
    assert!(!actor.timed_out());
    assert_eq!(actor.accept(), Ok(()));
    assert_eq!(actor.state(), State::Start);
    assert_eq!(actor.deadline(), None);
}

#[test]
fn a_transaction_that_times_out_is_rolled_back() {
    let conn = rusqlite::Connection::open_in_memory().unwrap();
    conn.execute_batch("create table t (a); insert into t values (1);").unwrap();
    let begin = SqlStatement { stmt: String::from("begin"), kind: TransactionKind::TxnBegin };
    let delete = SqlStatement { stmt: String::from("delete from t"), kind: TransactionKind::Other };
    let mut actor = Actor::new(50);

    assert_eq!(actor.accept(), Ok(()));
    let result = execute_query(&conn, &begin, vec![], &vec![]);
    assert_eq!(actor.record(begin.kind, &result, 0), Verdict::Continue);
    assert_eq!(actor.accept(), Ok(()));
    let result = execute_query(&conn, &delete, vec![], &vec![]);
    assert_eq!(actor.record(delete.kind, &result, 10), Verdict::Continue);
    assert_eq!(actor.deadline(), Some(50));
    assert!(!conn.is_autocommit());

    // No submission arrives before tick 50.
    assert_eq!(rollback(&conn), Ok(()));
    actor.expire();

    let refused = actor.accept();
    assert!(matches!(refused, Err(QueryError { code: ErrorCode::TxTimeout, .. })));
    assert!(conn.is_autocommit());
    let kept: i64 = conn.query_row("select count(*) from t", [], |row| row.get(0)).unwrap();
    assert_eq!(kept, 1);
    assert_eq!(actor.accept(), Ok(()));
}

#[test]
fn the_deadline_counts_from_the_end_of_the_begin() {
    let mut actor = Actor::new(u64::MAX - 7);
    assert_eq!(actor.record(TransactionKind::TxnBegin, &done(), 7), Verdict::Continue);
    assert_eq!(actor.deadline(), Some(u64::MAX));
    let mut instant = Actor::new(0);
    assert_eq!(instant.record(TransactionKind::TxnBegin, &done(), 42), Verdict::Continue);
    assert_eq!(instant.deadline(), Some(42));
}

#[test]
fn arming_is_told_before_it_happens() {
    let idle = Actor::new(5000);
    assert!(idle.arms(TransactionKind::TxnBegin, true));
    assert!(!idle.arms(TransactionKind::TxnBegin, false));
    assert!(!idle.arms(TransactionKind::Other, true));
    assert!(!idle.arms(TransactionKind::TxnEnd, true));
    let busy = opened(5000, 1200);
    assert!(!busy.arms(TransactionKind::TxnBegin, true));
}
