use vstd::prelude::*;

verus! {

/// Status code the browser subsystem uses for a missing result.
pub const E_POINTER: i32 = -2147467261;

/// Why initialization stopped. Every one of these ends start-up.
#[derive(Clone, Copy, Debug, PartialEq, Eq, Structural)]
pub enum InitError {
    /// Window class registration or window creation failed.
    PlatformInit,
    /// The UI locale could not be looked up or set as the requested language.
    Configuration,
    /// The browser subsystem reported this failure status.
    Subsystem(i32),
    /// The controller exposes no view.
    ViewUnavailable,
    /// The rendezvous between a completion callback and its waiting caller broke.
    Communication,
}

/// A status code signals failure when it is negative.
pub open spec fn is_failure(code: i32) -> bool {
    code < 0
}

/// Maps a status code returned by a subsystem call to a typed outcome.
pub fn check_status(code: i32) -> (r: Result<(), InitError>)
    ensures
        is_failure(code) ==> r == Err::<(), InitError>(InitError::Subsystem(code)),
        !is_failure(code) ==> r is Ok,
{
    if code < 0 {
        Err(InitError::Subsystem(code))
    } else {
        Ok(())
    }
}

} // verus!
