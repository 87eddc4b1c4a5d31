//! The bookkeeping of the worker that owns the connection.
//!
//! The worker waits for a submission, for no longer than the deadline of the
//! open transaction, runs what it received, and replies. What it waits for
//! and what it does with a result is decided here; the waiting and the
//! replying are the caller's.

use vstd::prelude::*;
use crate::query::{ErrorCode, QueryError, QueryResult};
use crate::statement::{State, TransactionKind};

verus! {

/// What the worker does after it has recorded a result.
#[derive(Clone, Copy, Debug, PartialEq, Eq, Structural)]
pub enum Verdict {
    /// Reply and wait for the next submission.
    Continue,
    /// The statements ran in an order that no well-formed client produces:
    /// the worker must stop.
    Abort,
}

/// The worker's bookkeeping as a plain value. Instants and durations are
/// whole ticks of one monotonic clock.
pub ghost struct ActorView {
    /// `Start` or `TxnOpened`.
    pub state: State,
    /// The instant by which the open transaction must have ended.
    pub deadline: Option<u64>,
    /// Whether the last transaction was rolled back for taking too long and
    /// no submission has been told so yet.
    pub timed_out: bool,
    /// How long a transaction may stay open.
    pub timeout: u64,
}

impl ActorView {
    /// A deadline is armed exactly while a transaction is open, the state
    /// at rest is `Start` or `TxnOpened`, and while a timeout is still to be
    /// told no transaction is open.
    pub open spec fn well_formed(self) -> bool {
        &&& self.state == State::Start || self.state == State::TxnOpened
        &&& self.deadline is Some <==> self.state == State::TxnOpened
        &&& self.timed_out ==> self.state == State::Start
    }

    /// The bookkeeping of a worker that has not run anything yet.
    pub open spec fn initial(timeout: u64) -> ActorView {
        ActorView { state: State::Start, deadline: None, timed_out: false, timeout }
    }

    /// The bookkeeping after the deadline passed and the transaction was
    /// rolled back.
    pub open spec fn expired(self) -> ActorView {
        ActorView { state: State::Start, deadline: None, timed_out: true, ..self }
    }

    /// The bookkeeping after a submission was taken from the queue.
    pub open spec fn accepted(self) -> ActorView {
        ActorView { timed_out: false, ..self }
    }

    /// Whether a statement of the given kind opens a transaction, which arms
    /// the deadline.
    pub open spec fn arms(self, kind: TransactionKind, succeeded: bool) -> bool {
        succeeded && self.state == State::Start && kind == TransactionKind::TxnBegin
    }

    /// The bookkeeping after a statement of the given kind has run, and
    /// whether the worker may go on. `now` is the instant at which the
    /// statement was done.
    ///
    /// | state       | kind       | succeeded | state after | deadline          |
    /// |-------------|------------|-----------|-------------|-------------------|
    /// | any         | any        | no        | unchanged   | unchanged         |
    /// | any         | `Other`    | yes       | unchanged   | unchanged         |
    /// | `Start`     | `TxnBegin` | yes       | `TxnOpened` | `now + timeout`   |
    /// | `TxnOpened` | `TxnEnd`   | yes       | `Start`     | none              |
    /// | otherwise   |            | yes       | unchanged   | unchanged, abort  |
    pub open spec fn recorded(self, kind: TransactionKind, succeeded: bool, now: u64) -> (
        ActorView,
        Verdict,
    ) {
        if !succeeded {
            (self, Verdict::Continue)
        } else {
            match (self.state, self.state.next(kind)) {
                (State::Start, State::TxnOpened) => (
                    ActorView {
                        state: State::TxnOpened,
                        deadline: Some((now + self.timeout) as u64),
                        ..self
                    },
                    Verdict::Continue,
                ),
                (State::TxnOpened, State::TxnClosed) => (
                    ActorView { state: State::Start, deadline: None, ..self },
                    Verdict::Continue,
                ),
                (_, State::Invalid) => (self, Verdict::Abort),
                _ => (self, Verdict::Continue),
            }
        }
    }
}

/// The bookkeeping of one worker: the transaction state of its connection,
/// the deadline of the open transaction, and whether the next submission
/// has to be told that its transaction timed out.
pub struct Actor {
    state: State,
    deadline: Option<u64>,
    timed_out: bool,
    timeout: u64,
}

impl View for Actor {
    type V = ActorView;

    closed spec fn view(&self) -> ActorView {
        ActorView {
            state: self.state,
            deadline: self.deadline,
            timed_out: self.timed_out,
            timeout: self.timeout,
        }
    }
}

impl Actor {
    #[verifier::type_invariant]
    spec fn inv(self) -> bool {
        self@.well_formed()
    }

    /// A worker with no transaction open, whose transactions may stay open
    /// for `timeout` ticks.
    pub fn new(timeout: u64) -> (actor: Actor)
        ensures
            actor@ == ActorView::initial(timeout),
            actor@.well_formed(),
    {
        Actor { state: State::Start, deadline: None, timed_out: false, timeout }
    }

    /// The transaction state of the connection.
    pub fn state(&self) -> (state: State)
        ensures
            state == self@.state,
            self@.well_formed(),
    {
        proof {
            use_type_invariant(self);
        }
        self.state
    }

    /// How long the worker may wait for the next submission: until the
    /// returned instant while a transaction is open, without limit otherwise.
    pub fn deadline(&self) -> (deadline: Option<u64>)
        ensures
            deadline == self@.deadline,
            deadline is Some <==> self@.state == State::TxnOpened,
    {
        proof {
            use_type_invariant(self);
        }
        self.deadline
    }

    /// Whether the next submission will be refused because its transaction
    /// timed out.
    pub fn timed_out(&self) -> (flag: bool)
        ensures
            flag == self@.timed_out,
    {
        self.timed_out
    }

    /// How long a transaction may stay open.
    pub fn timeout(&self) -> (timeout: u64)
        ensures
            timeout == self@.timeout,
    {
        self.timeout
    }

    /// Records that the deadline passed with no submission and that the
    /// transaction has been rolled back: no transaction is open any more, no
    /// deadline is armed, and the next submission is owed a timeout.
    pub fn expire(&mut self)
        ensures
            final(self)@ == old(self)@.expired(),
            final(self)@.well_formed(),
    {
        *self = Actor { state: State::Start, deadline: None, timed_out: true, timeout: self.timeout };
    }

    /// Decides what to do with a submission that was taken from the queue.
    /// If the last transaction timed out, the submission is not run: the
    /// error to reply with is returned, and the next submission starts
    /// afresh. Otherwise the submission is to be run.
    pub fn accept(&mut self) -> (admission: Result<(), QueryError>)
        ensures
            final(self)@ == old(self)@.accepted(),
            admission is Err <==> old(self)@.timed_out,
            admission matches Err(e) ==> e.code == ErrorCode::TxTimeout && e.message@
                == "transaction timedout"@,
    {
        proof {
            use_type_invariant(&*self);
        }
        if self.timed_out {
            *self = Actor {
                state: self.state,
                deadline: self.deadline,
                timed_out: false,
                timeout: self.timeout,
            };
            Err(QueryError::new(ErrorCode::TxTimeout, "transaction timedout".to_string()))
        } else {
            Ok(())
        }
    }

    /// Whether a statement of the given kind opens a transaction, which arms
    /// the deadline.
    pub fn arms(&self, kind: TransactionKind, succeeded: bool) -> (arms: bool)
        ensures
            arms == self@.arms(kind, succeeded),
    {
        succeeded && matches!(self.state, State::Start) && matches!(
            kind,
            TransactionKind::TxnBegin
        )
    }

    /// Records the result of a statement of the given kind, done at `now`.
    /// The statement was run because `accept` said so, which leaves no
    /// timeout to be told. A failed statement changes nothing. A statement that ran advances the
    /// transaction state: a begin arms the deadline, an end disarms it, and
    /// a statement out of order stops the worker.
    pub fn record(&mut self, kind: TransactionKind, result: &QueryResult, now: u64) -> (verdict:
        Verdict)
        requires
            !old(self)@.timed_out,
            old(self)@.arms(kind, result is Ok) ==> now + old(self)@.timeout <= u64::MAX,
        ensures
            (final(self)@, verdict) == old(self)@.recorded(kind, result is Ok, now),
            final(self)@.well_formed(),
    {
        proof {
            use_type_invariant(&*self);
        }
        if result.is_ok() {
            let before = self.state;
            let mut after = self.state;
            after.step(kind);
            match (before, after) {
                (State::Start, State::TxnOpened) => {
                    *self = Actor {
                        state: State::TxnOpened,
                        deadline: Some(now + self.timeout),
                        timed_out: self.timed_out,
                        timeout: self.timeout,
                    };
                    Verdict::Continue
                },
                (State::TxnOpened, State::TxnClosed) => {
                    *self = Actor {
                        state: State::Start,
                        deadline: None,
                        timed_out: self.timed_out,
                        timeout: self.timeout,
                    };
                    Verdict::Continue
                },
                (_, State::Invalid) => Verdict::Abort,
                _ => Verdict::Continue,
            }
        } else {
            Verdict::Continue
        }
    }
}

/// The bookkeeping stays well formed whatever happens: a deadline is armed
/// exactly while a transaction is open, and a timeout that is still to be
/// told means that none is. A result is recorded only once the submission
/// has been accepted.
pub proof fn lemma_well_formed_is_kept(
    actor: ActorView,
    kind: TransactionKind,
    succeeded: bool,
    now: u64,
)
    requires
        actor.well_formed(),
    ensures
        ActorView::initial(actor.timeout).well_formed(),
        actor.expired().well_formed(),
        actor.accepted().well_formed(),
        !actor.accepted().timed_out,
        !actor.timed_out ==> actor.recorded(kind, succeeded, now).0.well_formed(),
        actor.accepted().recorded(kind, succeeded, now).0.well_formed(),
{
}

/// A statement that leaves transaction boundaries alone changes neither the
/// transaction state nor the deadline, whether it ran or failed.
pub proof fn lemma_other_changes_nothing(actor: ActorView, succeeded: bool, now: u64)
    requires
        actor.well_formed(),
    ensures
        actor.recorded(TransactionKind::Other, succeeded, now) == (actor, Verdict::Continue),
{
}

/// A statement that failed changes nothing, whatever its kind: a begin that
/// failed opens no transaction and arms no deadline.
pub proof fn lemma_failure_changes_nothing(actor: ActorView, kind: TransactionKind, now: u64)
    ensures
        actor.recorded(kind, false, now) == (actor, Verdict::Continue),
{
}

/// What a statement that ran does to the deadline: a begin with no
/// transaction open arms it at `now + timeout`, an end of the open
/// transaction disarms it, a statement out of order stops the worker, and
/// every other statement leaves it alone.
pub proof fn lemma_deadline_follows_transaction(actor: ActorView, kind: TransactionKind, now: u64)
    requires
        actor.well_formed(),
        actor.arms(kind, true) ==> now + actor.timeout <= u64::MAX,
    ensures
        ({
            let (after, verdict) = actor.recorded(kind, true, now);
            &&& after.deadline != actor.deadline <==> actor.arms(kind, true) || (actor.state
                == State::TxnOpened && kind == TransactionKind::TxnEnd)
            &&& after.timed_out == actor.timed_out
            &&& after.timeout == actor.timeout
            &&& actor.state == State::Start && kind == TransactionKind::TxnBegin ==> verdict
                == Verdict::Continue && after.state == State::TxnOpened && after.deadline == Some(
                (now + actor.timeout) as u64,
            )
            &&& actor.state == State::TxnOpened && kind == TransactionKind::TxnEnd ==> verdict
                == Verdict::Continue && after.state == State::Start && after.deadline is None
            &&& actor.state == State::Start && kind == TransactionKind::TxnEnd ==> verdict
                == Verdict::Abort && after == actor
            &&& actor.state == State::TxnOpened && kind == TransactionKind::TxnBegin ==> verdict
                == Verdict::Abort && after == actor
            &&& verdict == Verdict::Abort <==> actor.state.next(kind) == State::Invalid
        }),
{
}

/// After the deadline has passed, the next submission is refused and the one
/// after it is run.
pub proof fn lemma_timeout_is_told_once(actor: ActorView)
    ensures
        actor.expired().timed_out,
        actor.expired().state == State::Start,
        actor.expired().deadline is None,
        !actor.expired().accepted().timed_out,
        actor.expired().accepted() == ActorView::initial(actor.timeout),
{
}

} // verus!
