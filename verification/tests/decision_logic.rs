//! Tests of the shared backend decision logic: timeout conversion, the
//! chunked wait, and return-code classification.

use listener_poll::chunking::{MsChunks, PollDecision};
use listener_poll::report::{
    classify_event_code, classify_poll_code, narrow_handle, outcome_result, PollError, PollOutcome,
};
use listener_poll::timeout::PollTimeout;

const MAX_MS: i64 = i32::MAX as i64;

#[test]
fn millis_conversion_is_exact() {
    assert_eq!(2500, PollTimeout::new(2, 500_000_000).as_millis());
    assert_eq!(0, PollTimeout::new(0, 999_999).as_millis());
    assert_eq!(1, PollTimeout::new(0, 1_000_000).as_millis());
    assert_eq!(1800, PollTimeout::new(1, 800_000_000).as_millis());
    assert_eq!(0, PollTimeout::zero().as_millis());
}

#[test]
fn timespec_fields_pass_a_fitting_duration_through() {
    let t = PollTimeout::new(5, 999_999_999);
    assert_eq!(Ok((5, 999_999_999)), t.timespec_fields());
    let edge = PollTimeout::new(i64::MAX as u64, 0);
    assert_eq!(Ok((i64::MAX, 0)), edge.timespec_fields());
}

#[test]
fn timespec_fields_reject_overlarge_seconds() {
    let t = PollTimeout::new(u64::MAX, 0);
    assert_eq!(Err(PollError::TimeoutOverflow), t.timespec_fields());
    let just_over = PollTimeout::new((i64::MAX as u64) + 1, 0);
    assert_eq!(Err(PollError::TimeoutOverflow), just_over.timespec_fields());
}

#[test]
fn short_wait_is_a_single_call() {
    let t = PollTimeout::new(1, 800_000_000);
    let mut chunks = MsChunks::begin(&t);
    assert_eq!(1800, chunks.call_timeout_ms());
    assert_eq!(
        PollDecision::TimedOut,
        chunks.advance(PollOutcome::TimedOut)
    );
}

#[test]
fn overlarge_wait_is_chunked_and_covered_exactly() {
    // Two full per-call ceilings and five milliseconds over.
    let total_ms: i64 = 2 * MAX_MS + 5;
    let secs = (total_ms / 1000) as u64;
    let nanos = ((total_ms % 1000) as u32) * 1_000_000;
    let t = PollTimeout::new(secs, nanos);
    assert_eq!(total_ms as u128, t.as_millis());

    let mut chunks = MsChunks::begin(&t);
    assert_eq!(i32::MAX, chunks.call_timeout_ms());
    assert_eq!(PollDecision::Continue, chunks.advance(PollOutcome::TimedOut));
    assert_eq!(i32::MAX, chunks.call_timeout_ms());
    assert_eq!(PollDecision::Continue, chunks.advance(PollOutcome::TimedOut));
    assert_eq!(5, chunks.call_timeout_ms());
    assert_eq!(PollDecision::TimedOut, chunks.advance(PollOutcome::TimedOut));
}

#[test]
fn readiness_ends_the_chunked_wait_at_once() {
    let total_ms: i64 = 3 * MAX_MS;
    let secs = (total_ms / 1000) as u64;
    let nanos = ((total_ms % 1000) as u32) * 1_000_000;
    let mut chunks = MsChunks::begin(&PollTimeout::new(secs, nanos));
    assert_eq!(i32::MAX, chunks.call_timeout_ms());
    assert_eq!(PollDecision::Ready, chunks.advance(PollOutcome::Ready));

    // The same holds when readiness arrives in the middle of the sequence.
    let mut chunks = MsChunks::begin(&PollTimeout::new(secs, nanos));
    assert_eq!(PollDecision::Continue, chunks.advance(PollOutcome::TimedOut));
    assert_eq!(i32::MAX, chunks.call_timeout_ms());
    assert_eq!(PollDecision::Ready, chunks.advance(PollOutcome::Ready));
}

#[test]
fn failure_ends_the_chunked_wait_at_once() {
    let total_ms: i64 = 3 * MAX_MS;
    let secs = (total_ms / 1000) as u64;
    let nanos = ((total_ms % 1000) as u32) * 1_000_000;
    let mut chunks = MsChunks::begin(&PollTimeout::new(secs, nanos));
    assert_eq!(PollDecision::Failed, chunks.advance(PollOutcome::Failed));
}

#[test]
fn zero_wait_is_one_immediate_call() {
    let mut chunks = MsChunks::begin(&PollTimeout::zero());
    assert_eq!(0, chunks.call_timeout_ms());
    assert_eq!(PollDecision::TimedOut, chunks.advance(PollOutcome::TimedOut));
}

#[test]
fn poll_codes_classify_by_sign() {
    assert_eq!(PollOutcome::Failed, classify_poll_code(-1));
    assert_eq!(PollOutcome::Failed, classify_poll_code(-7));
    assert_eq!(PollOutcome::TimedOut, classify_poll_code(0));
    assert_eq!(PollOutcome::Ready, classify_poll_code(1));
    assert_eq!(PollOutcome::Ready, classify_poll_code(3));
}

#[test]
fn event_codes_classify_by_sentinel() {
    assert_eq!(PollOutcome::Failed, classify_event_code(-1));
    assert_eq!(PollOutcome::TimedOut, classify_event_code(0));
    assert_eq!(PollOutcome::Ready, classify_event_code(1));
    // Only the sentinel value itself signals failure.
    assert_eq!(PollOutcome::Ready, classify_event_code(-7));
}

#[test]
fn outcomes_map_to_the_uniform_result() {
    assert_eq!(Ok(true), outcome_result(PollOutcome::Ready, 0));
    assert_eq!(Ok(false), outcome_result(PollOutcome::TimedOut, 0));
    assert_eq!(
        Err(PollError::Os { code: 11 }),
        outcome_result(PollOutcome::Failed, 11)
    );
}

#[test]
fn fitting_handles_narrow_unchanged() {
    assert_eq!(Ok(42), narrow_handle(42));
    assert_eq!(Ok(0), narrow_handle(0));
}
