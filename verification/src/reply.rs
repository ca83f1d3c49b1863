//! What the caller of the visit endpoint is told.

use crate::store::StoreError;
use vstd::prelude::*;

verus! {

/// The answer to one visit: the HTTP status and the two fields of the body.
#[derive(Debug, Clone, Copy, PartialEq, Eq)]
pub struct VisitReply {
    pub status: u16,
    pub success: bool,
    pub count: usize,
}

/// The answer that an outcome of the store calls for.
pub open spec fn reply_for(outcome: Result<usize, StoreError>) -> VisitReply {
    match outcome {
        Ok(count) => VisitReply { status: 200, success: true, count },
        Err(_) => VisitReply { status: 500, success: false, count: 0 },
    }
}

/// The answer to a visit: 200 with the count where the store recorded it,
/// 500 with a zero count where the store failed.
pub fn visit_reply(outcome: &Result<usize, StoreError>) -> (r: VisitReply)
    ensures
        r == reply_for(*outcome),
{
    match outcome {
        Ok(count) => VisitReply { status: 200, success: true, count: *count },
        Err(_) => VisitReply { status: 500, success: false, count: 0 },
    }
}

} // verus!
