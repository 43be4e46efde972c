//! The reconnect-and-retry policy built on the session primitives: a call
//! that fails because its session died is retried once, after a fresh session
//! has been swapped in.

use vstd::prelude::*;

use crate::error::CdpError;

verus! {

/// What to do after an attempt of a call came back.
pub enum AttemptStep {
    /// Reconnect, swap the fresh session in, then call once more.
    Reconnect,
    /// The call is over with this result.
    Finish(Result<String, CdpError>),
}

/// What to do after a reconnect came back.
pub enum ReconnectStep {
    /// Send the same command again on the current session.
    Resend,
    /// The call is over with this failure.
    Finish(CdpError),
}

/// Whether an attempt's result calls for a reconnect.
pub open spec fn wants_reconnect(retried: bool, result: Result<String, CdpError>) -> bool {
    !retried && (result matches Err(e) && e.is_transport_failure())
}

/// After the first attempt (`retried` false) a transport failure leads to a
/// reconnect; any other result, and any result of the retry, is final.
pub fn after_attempt(retried: bool, result: Result<String, CdpError>) -> (r: AttemptStep)
    ensures
        wants_reconnect(retried, result) ==> r is Reconnect,
        !wants_reconnect(retried, result) ==> r == AttemptStep::Finish(result),
{
    match result {
        Err(e) => {
            if !retried && e.is_transport_failure() {
                AttemptStep::Reconnect
            } else {
                AttemptStep::Finish(Err(e))
            }
        },
        Ok(v) => AttemptStep::Finish(Ok(v)),
    }
}

/// A successful reconnect leads to one more attempt; a failed one ends the
/// call with `ConnectionFailed` and the reason.
pub fn after_reconnect(result: Result<(), String>) -> (r: ReconnectStep)
    ensures
        result is Ok ==> r is Resend,
        result matches Err(msg) ==> r == ReconnectStep::Finish(CdpError::ConnectionFailed(msg)),
{
    match result {
        Ok(()) => ReconnectStep::Resend,
        Err(msg) => ReconnectStep::Finish(CdpError::ConnectionFailed(msg)),
    }
}

} // verus!
