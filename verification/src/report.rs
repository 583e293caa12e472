//! Classification of a polling primitive's return code, and the uniform
//! error surface of the library.
//!
//! Every backend's primitive reports one of three things per call: a
//! failure, an elapsed timeout, or at least one observed event.  The two
//! classifiers here map the raw return codes of the two primitive families
//! onto that common alphabet, and [`outcome_result`] maps the alphabet onto
//! the caller-visible result of a single-call poll.

use vstd::prelude::*;

verus! {

/// What one call of a polling primitive reported.
#[derive(Clone, Copy, Debug, PartialEq, Eq, Structural)]
pub enum PollOutcome {
    /// The primitive itself failed; the platform's last reported error code
    /// says why.
    Failed,
    /// The requested wait elapsed, or the platform woke the call spuriously,
    /// without any event being observed.
    TimedOut,
    /// At least the requested readiness event was observed.
    Ready,
}

/// Why a poll operation failed.
#[derive(Clone, Copy, Debug, PartialEq, Eq, Structural)]
pub enum PollError {
    /// The operating system's polling call reported an error; `code` is the
    /// platform's reported error code.
    Os { code: i32 },
    /// A requested wait duration does not fit the native timeout fields of
    /// the active primitive.
    TimeoutOverflow,
    /// The raw handle does not fit the handle width the active primitive
    /// expects; an inconsistency of the environment, not a runtime state.
    HandleOverflow,
}

/// How a `poll`-family primitive's return code reads: negative is failure,
/// zero is an elapsed timeout, positive is a count of descriptors with
/// observed events.
pub open spec fn poll_code_outcome(code: int) -> PollOutcome {
    if code < 0 {
        PollOutcome::Failed
    } else if code == 0 {
        PollOutcome::TimedOut
    } else {
        PollOutcome::Ready
    }
}

/// How the native Windows polling primitive's return code reads: it signals
/// failure only by the sentinel value `-1`, reports an elapsed timeout as
/// zero, and any other value as a count of descriptors with observed events.
pub open spec fn event_code_outcome(code: int) -> PollOutcome {
    if code == -1 {
        PollOutcome::Failed
    } else if code == 0 {
        PollOutcome::TimedOut
    } else {
        PollOutcome::Ready
    }
}

/// Classify the return code of a `poll`-family primitive.
pub fn classify_poll_code(code: i32) -> (o: PollOutcome)
    ensures
        o == poll_code_outcome(code as int),
{
    if code < 0 {
        PollOutcome::Failed
    } else if code == 0 {
        PollOutcome::TimedOut
    } else {
        PollOutcome::Ready
    }
}

/// Classify the return code of the native Windows polling primitive.
pub fn classify_event_code(code: i32) -> (o: PollOutcome)
    ensures
        o == event_code_outcome(code as int),
{
    if code == -1 {
        PollOutcome::Failed
    } else if code == 0 {
        PollOutcome::TimedOut
    } else {
        PollOutcome::Ready
    }
}

/// Narrow a raw listening-socket handle to the pointer-sized handle width
/// the native Windows polling primitive expects.  The handle source and the
/// primitive belong to the same environment, so a handle that does not fit
/// indicates an inconsistency between the two; it is reported as an error
/// rather than truncated.
pub fn narrow_handle(raw: u64) -> (r: Result<usize, PollError>)
    ensures
        raw <= usize::MAX ==> r == Ok::<usize, PollError>(raw as usize),
        raw > usize::MAX ==> r == Err::<usize, PollError>(PollError::HandleOverflow),
{
    if raw <= (usize::MAX as u64) {
        Ok(raw as usize)
    } else {
        Err(PollError::HandleOverflow)
    }
}

/// The caller-visible result of a poll that made exactly one primitive call:
/// readiness on an observed event, `false` on an elapsed timeout or spurious
/// wake, and the platform's error code on a failure.
pub fn outcome_result(o: PollOutcome, os_code: i32) -> (r: Result<bool, PollError>)
    ensures
        o is Ready ==> r == Ok::<bool, PollError>(true),
        o is TimedOut ==> r == Ok::<bool, PollError>(false),
        o is Failed ==> r == Err::<bool, PollError>(PollError::Os { code: os_code }),
{
    match o {
        PollOutcome::Ready => Ok(true),
        PollOutcome::TimedOut => Ok(false),
        PollOutcome::Failed => Err(PollError::Os { code: os_code }),
    }
}

} // verus!
