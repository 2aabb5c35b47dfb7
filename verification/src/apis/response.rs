//! The answer of a web operation, decided from the role gate and from the
//! outcome of its database work.

use vstd::prelude::*;

verus! {

/// The HTTP statuses that the operations answer with (`Success` is 200).
#[derive(Clone, Copy, Debug, PartialEq, Eq, Structural)]
pub enum Status {
    Success,
    Forbidden,
    NotFound,
    NotAcceptable,
    BadRequest,
}

/// What an operation answers: its result with status 200, or a bare status.
#[derive(Debug)]
pub enum Reply<T> {
    Done(T),
    Refused(Status),
}

/// The answer of an operation. `outcome` is `None` when the caller was
/// turned away by the role gate, and otherwise the outcome of the work;
/// `on_denied` and `on_failure` are the statuses that the operation answers
/// in those two cases.
pub fn answer<T, E>(outcome: Option<core::result::Result<T, E>>, on_denied: Status, on_failure: Status) -> (reply: Reply<T>)
    ensures
        reply == match outcome {
            None => Reply::Refused(on_denied),
            Some(Err(_)) => Reply::Refused(on_failure),
            Some(Ok(t)) => Reply::Done(t),
        },
{
    match outcome {
        None => Reply::Refused(on_denied),
        Some(Err(_)) => Reply::Refused(on_failure),
        Some(Ok(t)) => Reply::Done(t),
    }
}

} // verus!
