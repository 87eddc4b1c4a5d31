//! When to try again to open the database.
//!
//! The connection that closes a database last holds an exclusive lock for a
//! short time while it cleans up. A connection that is opened in that time
//! finds the database busy, so a busy database is worth a few more tries.

use vstd::prelude::*;
use crate::engine;
use crate::query::{primary_code, EngineError, BUSY};

verus! {

/// How often opening is tried again after the database was found busy.
pub const MAX_RETRIES: u32 = 10;

/// How long to wait before the next try, in milliseconds.
pub const RETRY_DELAY_MS: u64 = 10;

/// The flags every connection is opened with, as the engine numbers them:
/// read and write, create the file if it is missing, take the path as a
/// URI, and no mutex on the connection.
pub const OPEN_FLAGS: i32 = 0x8046;

/// What to do after a try to open the database failed.
#[derive(Clone, Copy, Debug, PartialEq, Eq, Structural)]
pub enum OpenDecision {
    /// Wait for `delay_ms` milliseconds, then try again.
    Retry { delay_ms: u64 },
    /// Opening has failed for good.
    GiveUp,
}

/// The number of retries after a failure, given the number before it and
/// whether the database was busy, and what to do.
pub open spec fn decided(retries: nat, busy: bool) -> (nat, OpenDecision) {
    if busy && retries < MAX_RETRIES {
        (retries + 1, OpenDecision::Retry { delay_ms: RETRY_DELAY_MS })
    } else {
        (retries, OpenDecision::GiveUp)
    }
}

/// The number of retries made after `failures` tries in a row found the
/// database busy, each followed by what `decided` says.
pub open spec fn retries_after(failures: nat) -> nat
    decreases failures,
{
    if failures == 0 {
        0
    } else {
        decided(retries_after((failures - 1) as nat), true).0
    }
}

/// Counts the retries of one opening.
pub struct Opener {
    retries: u32,
}

impl View for Opener {
    type V = nat;

    /// The number of retries made so far.
    closed spec fn view(&self) -> nat {
        self.retries as nat
    }
}

impl Opener {
    #[verifier::type_invariant]
    spec fn inv(self) -> bool {
        self.retries <= MAX_RETRIES
    }

    /// An opening that has not been retried yet.
    pub fn new() -> (opener: Opener)
        ensures
            opener@ == 0,
    {
        Opener { retries: 0 }
    }

    /// The number of retries made so far.
    pub fn retries(&self) -> (retries: u32)
        ensures
            retries == self@,
            retries <= MAX_RETRIES,
    {
        proof {
            use_type_invariant(self);
        }
        self.retries
    }

    /// Decides what to do after a try failed with `failure`: a busy database
    /// is tried again after the delay, up to the limit of retries; any other
    /// failure, and a busy database once the retries are used up, is final.
    pub fn decide(&mut self, failure: &EngineError) -> (decision: OpenDecision)
        ensures
            (final(self)@, decision) == decided(old(self)@, failure.busy()),
    {
        proof {
            use_type_invariant(&*self);
        }
        if failure.is_busy() && self.retries < MAX_RETRIES {
            *self = Opener { retries: self.retries + 1 };
            OpenDecision::Retry { delay_ms: RETRY_DELAY_MS }
        } else {
            OpenDecision::GiveUp
        }
    }

    /// Decides what to do after a try failed with the engine's `error`, as
    /// `decide` does: the database was busy if the error carries a result
    /// code whose primary code says so.
    pub fn on_failure(&mut self, error: &rusqlite::Error) -> (decision: OpenDecision)
        ensures
            (final(self)@, decision) == decided(
                old(self)@,
                engine::reported_code(*error) matches Some(code) && primary_code(code) == BUSY,
            ),
    {
        let failure = EngineError {
            code: engine::error_code(error),
            message: engine::error_message(error),
        };
        self.decide(&failure)
    }
}

/// A failure other than a busy database is never tried again.
pub proof fn lemma_other_failures_are_final(retries: nat)
    ensures
        decided(retries, false) == (retries, OpenDecision::GiveUp),
{
}

/// Of tries that find the database busy one after another, the first ten
/// are tried again and the eleventh is final.
pub proof fn lemma_busy_budget(failures: nat)
    ensures
        retries_after(failures) == if failures <= MAX_RETRIES {
            failures
        } else {
            MAX_RETRIES as nat
        },
        decided(retries_after(failures), true).1 is Retry <==> failures < MAX_RETRIES,
    decreases failures,
{
    if failures > 0 {
        lemma_busy_budget((failures - 1) as nat);
    }
}

} // verus!
