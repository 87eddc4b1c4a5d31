//! What a caller gets for a submission.

use vstd::prelude::*;
use crate::query::{ErrorCode, QueryError, QueryResponse, QueryResult};

verus! {

/// What a submission resolves to: the worker's reply where one arrived, and
/// an internal error that carries `reason` where the worker is gone, either
/// because the queue was closed or because the reply channel was dropped
/// without a value.
pub open spec fn resolved(reply: Result<QueryResult, String>) -> QueryResult {
    match reply {
        Ok(result) => result,
        Err(reason) => Err(QueryError { code: ErrorCode::Internal, message: reason }),
    }
}

/// Resolves a submission from what came back on its reply channel.
pub fn resolve_reply(reply: Result<QueryResult, String>) -> (result: QueryResult)
    ensures
        result == resolved(reply),
{
    match reply {
        Ok(result) => result,
        Err(reason) => Err(QueryError::new(ErrorCode::Internal, reason)),
    }
}

} // verus!
