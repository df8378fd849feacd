use vstd::prelude::*;
use crate::errors::ApiError;
use crate::orchestrator::{FetchResult, Operation, Plan};
use crate::rate_limit::{admit_spec, RateLimiter};

verus! {

/// The status of a successful reply.
pub const STATUS_OK: u16 = 200;

/// The rate-limit identity of a caller: its peer address, or `"unknown"` when
/// none can be determined (all such callers share one record).
pub fn identity_of(peer: Option<String>) -> (r: String)
    ensures
        match peer {
            Some(addr) => r == addr,
            None => r@ == "unknown"@,
        },
{
    match peer {
        Some(addr) => addr,
        None => String::from_str("unknown"),
    }
}

/// The first step of every inbound request: admission by the limiter, then the
/// plan of remote calls. A refused request gets no plan, so no remote call is made.
pub fn begin_request(limiter: &mut RateLimiter, identity: &str, now: u64, op: &Operation) -> (r:
    Result<Plan, ApiError>)
    requires
        old(limiter).wf(),
    ensures
        final(limiter).wf(),
        final(limiter)@ == admit_spec(old(limiter)@, identity@, now).0,
        admit_spec(old(limiter)@, identity@, now).1 ==> op.planned(r),
        !admit_spec(old(limiter)@, identity@, now).1 ==> r == Err::<Plan, ApiError>(
            ApiError::RateLimitExceeded,
        ),
{
    match limiter.try_admit(identity, now) {
        Err(e) => Err(e),
        Ok(()) => op.plan(),
    }
}

/// The status the gateway answers an outcome with.
pub fn status_of(result: &Result<FetchResult, ApiError>) -> (r: u16)
    ensures
        match result {
            Ok(_) => r == STATUS_OK,
            Err(e) => r == e.status_spec(),
        },
{
    match result {
        Ok(_) => STATUS_OK,
        Err(e) => e.error_response().status,
    }
}

} // verus!
