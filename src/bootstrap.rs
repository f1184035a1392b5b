use vstd::prelude::*;

use crate::error::{is_failure, InitError, E_POINTER};

verus! {

/// What a completion callback delivers for a status code and an optional
/// payload.
pub open spec fn completion_spec<T>(code: i32, payload: Option<T>) -> Result<T, InitError> {
    if is_failure(code) {
        Err(InitError::Subsystem(code))
    } else {
        match payload {
            Some(v) => Ok(v),
            None => Err(InitError::Subsystem(E_POINTER)),
        }
    }
}

/// The body of a completion callback: a failure status becomes a typed error,
/// and a success status without a payload becomes the missing-result error, so
/// that no absent handle ever reaches the waiting caller.
pub fn complete<T>(code: i32, payload: Option<T>) -> (r: Result<T, InitError>)
    ensures
        r == completion_spec(code, payload),
{
    if code < 0 {
        Err(InitError::Subsystem(code))
    } else {
        match payload {
            Some(v) => Ok(v),
            None => Err(InitError::Subsystem(E_POINTER)),
        }
    }
}

/// The waiting side of the rendezvous: what the callback delivered, or a
/// communication error when the channel closed with nothing delivered.
pub fn settle<T>(received: Option<Result<T, InitError>>) -> (r: Result<T, InitError>)
    ensures
        received is None ==> r == Err::<T, InitError>(InitError::Communication),
        received is Some ==> r == received.unwrap(),
{
    match received {
        Some(outcome) => outcome,
        None => Err(InitError::Communication),
    }
}

} // verus!
