//! Readiness polling for listening sockets.
//!
//! A listening handle is *ready* when an accept-style call on it would
//! return without blocking.  This crate provides the [`PollEx`] capability
//! contract (a readiness check with an optional bounded wait) together with
//! the verified decision logic that every platform backend shares:
//! converting a wait duration into the native timeout representation of the
//! operating system's single-descriptor polling primitive
//! ([`timeout`]), decomposing an overlarge wait into a sequence of bounded
//! primitive calls ([`chunking`]), and classifying the primitive's return
//! codes into a uniform result ([`report`]).
//!
//! The foreign calls themselves (the platform's `poll`-style primitives)
//! sit outside this crate; a backend drives them and feeds each outcome
//! back into the decision logic defined here.

use vstd::prelude::*;

pub mod chunking;
pub mod report;
pub mod timeout;

use crate::report::PollError;
use crate::timeout::PollTimeout;

verus! {

/// The readiness capability of a pollable listening handle.
///
/// An implementor supplies [`PollEx::ready`], the abstract readiness state
/// observed at the moment of a call, and [`PollEx::poll`], the one primitive
/// operation; the non-blocking check and the indefinite wait are built on
/// top of it.
///
/// Readiness is a statement about this handle at the moment it was
/// observed.  If another thread consumes the pending connection first, an
/// accept-style call may still block afterwards; that race belongs to the
/// underlying notification model, and a caller who cannot accept it must
/// additionally configure the handle itself as non-blocking.
pub trait PollEx {
    /// Whether an accept-style call on this handle would return without
    /// blocking: the abstract state that a successful poll reports.  An
    /// implementor living outside the verifier leaves it at the default,
    /// an unspecified value.
    open spec fn ready(&self) -> bool {
        vstd::pervasive::arbitrary()
    }

    /// Check readiness, waiting at most approximately `timeout` when one is
    /// given and indefinitely when none is.  A zero timeout checks once
    /// without waiting.  A successful result reports exactly the observed
    /// readiness: `Ok(true)` when the handle is ready, `Ok(false)` when the
    /// wait elapsed, or was cut short by a platform-dependent spurious
    /// wake, without an observed event.  A bounded wait therefore need not
    /// have lasted the full `timeout` when `Ok(false)` comes back.  Errors
    /// carry the platform's reported error code or reject a timeout that
    /// the active backend's native fields cannot represent.
    fn poll(&self, timeout: Option<PollTimeout>) -> (r: Result<bool, PollError>)
        ensures
            r matches Ok(b) ==> b == self.ready(),
    ;

    /// Check readiness without waiting: the same observation as a poll with
    /// a zero timeout.
    fn poll_non_blocking(&self) -> (r: Result<bool, PollError>)
        ensures
            r matches Ok(b) ==> b == self.ready(),
    {
        self.poll(Some(PollTimeout::zero()))
    }

    /// Wait, with no bound, until the handle is ready or the platform
    /// reports an error.  Spurious wakes are taken in and retried, never
    /// surfaced: a successful return means readiness was genuinely
    /// observed.
    ///
    /// An implementor repeats unbounded-wait observations, discarding each
    /// spurious `false`, until one reports readiness.  How long that takes
    /// is the environment's to decide — possibly forever, when no peer ever
    /// connects — so the retry loop belongs to the backend driving the
    /// platform primitive.
    fn poll_until_ready(&self) -> (r: Result<(), PollError>)
        ensures
            r is Ok ==> self.ready(),
    ;
}

/// The platform code for an interrupted call, as POSIX numbers it.  The
/// model listener reports it for an unbounded wait that would otherwise
/// never return.
pub const INTERRUPTED_CALL_CODE: i32 = 4;

/// A deterministic in-memory listening handle: ready exactly while a
/// connection is pending.  It exercises the [`PollEx`] contract without an
/// operating system behind it — a peer's connection and its consumption by
/// an accept-style call are explicit state changes.
pub struct ModelListener {
    /// Whether a connection is pending and not yet consumed.
    pub pending: bool,
}

impl ModelListener {
    /// A fresh listening handle with no pending connection.
    pub fn new() -> (l: Self)
        ensures
            !l.pending,
    {
        ModelListener { pending: false }
    }

    /// A peer initiates a connection: the handle becomes ready and stays so
    /// until the connection is consumed.
    pub fn connect(&mut self)
        ensures
            final(self).pending,
    {
        self.pending = true;
    }

    /// An accept-style call consumes the pending connection, if one is
    /// there: afterwards the handle is not ready until another peer
    /// connects.  Reports whether a connection was pending.
    pub fn take_pending(&mut self) -> (had: bool)
        ensures
            had == old(self).pending,
            !final(self).pending,
    {
        let had = self.pending;
        self.pending = false;
        had
    }
}

impl PollEx for ModelListener {
    open spec fn ready(&self) -> bool {
        self.pending
    }

    /// The model observes its own state directly: every poll succeeds and
    /// reports exactly whether a connection is pending, whatever the
    /// timeout.
    fn poll(&self, _timeout: Option<PollTimeout>) -> (r: Result<bool, PollError>)
        ensures
            r == Ok::<bool, PollError>(self.pending),
    {
        Ok(self.pending)
    }

    /// The model observes at once and never wakes spuriously: a pending
    /// connection completes the wait immediately.  With none pending, the
    /// real counterpart of this call would never return; the model, which
    /// cannot block, reports the platform's interrupted-call code instead.
    fn poll_until_ready(&self) -> (r: Result<(), PollError>)
        ensures
            self.pending ==> r == Ok::<(), PollError>(()),
            !self.pending ==> r == Err::<(), PollError>(
                PollError::Os { code: INTERRUPTED_CALL_CODE },
            ),
    {
        match self.poll(None) {
            Ok(true) => Ok(()),
            Ok(false) => Err(PollError::Os { code: INTERRUPTED_CALL_CODE }),
            Err(e) => Err(e),
        }
    }
}

} // verus!
