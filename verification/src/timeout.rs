//! The wait-duration model shared by every backend.
//!
//! A bounded wait is a pair of whole seconds and sub-second nanoseconds, the
//! shape in which the surrounding program's duration type hands its value
//! over.  The functions here convert such a pair into the two native timeout
//! representations the platform primitives use: a flat millisecond count, and
//! a two-field seconds/nanoseconds record whose seconds field is a signed
//! 64-bit integer.

use vstd::prelude::*;
use crate::report::PollError;

verus! {

/// A bounded, non-negative wait duration: whole seconds plus sub-second
/// nanoseconds.  A well-formed value keeps the nanosecond part below one
/// billion, as the surrounding program's duration type guarantees.
#[derive(Clone, Copy, Debug, PartialEq, Eq, Structural)]
pub struct PollTimeout {
    secs: u64,
    nanos: u32,
}

impl PollTimeout {
    /// The whole-seconds component.
    pub closed spec fn secs_spec(&self) -> u64 {
        self.secs
    }

    /// The sub-second nanoseconds component.
    pub closed spec fn nanos_spec(&self) -> u32 {
        self.nanos
    }

    /// A well-formed duration keeps its nanosecond part below one second.
    pub open spec fn wf(&self) -> bool {
        self.nanos_spec() < 1_000_000_000
    }

    /// The duration as a whole number of milliseconds, rounding the
    /// sub-millisecond remainder down.
    pub open spec fn as_millis_spec(&self) -> int {
        self.secs_spec() * 1000 + self.nanos_spec() / 1_000_000
    }

    pub fn new(secs: u64, nanos: u32) -> (t: Self)
        requires
            nanos < 1_000_000_000,
        ensures
            t.secs_spec() == secs,
            t.nanos_spec() == nanos,
            t.wf(),
    {
        PollTimeout { secs, nanos }
    }

    /// The zero duration: a poll with this timeout checks readiness once
    /// without waiting.
    pub fn zero() -> (t: Self)
        ensures
            t.secs_spec() == 0,
            t.nanos_spec() == 0,
            t.wf(),
    {
        PollTimeout { secs: 0, nanos: 0 }
    }

    pub fn secs(&self) -> (s: u64)
        ensures
            s == self.secs_spec(),
    {
        self.secs
    }

    pub fn subsec_nanos(&self) -> (n: u32)
        ensures
            n == self.nanos_spec(),
    {
        self.nanos
    }

    /// The duration as a whole number of milliseconds, the unit of the
    /// millisecond-based polling primitives.  The count of any representable
    /// duration fits a 128-bit integer.
    pub fn as_millis(&self) -> (ms: u128)
        ensures
            ms == self.as_millis_spec(),
    {
        (self.secs as u128) * 1000 + ((self.nanos / 1_000_000) as u128)
    }

    /// The two fields of the nanosecond-precision primitive's timeout
    /// record, each a signed 64-bit integer: the seconds and the sub-second
    /// nanoseconds of this duration, exactly, or an input-validation error
    /// when the seconds do not fit the field.  The nanoseconds of a
    /// well-formed duration are below one billion and always fit even the
    /// narrowest native nanoseconds field, so they are passed through
    /// unchanged.
    pub fn timespec_fields(&self) -> (r: Result<(i64, i64), PollError>)
        ensures
            self.secs_spec() <= i64::MAX ==> r == Ok::<(i64, i64), PollError>(
                (self.secs_spec() as i64, self.nanos_spec() as i64),
            ),
            self.secs_spec() > i64::MAX ==> r == Err::<(i64, i64), PollError>(
                PollError::TimeoutOverflow,
            ),
    {
        if self.secs <= (i64::MAX as u64) {
            Ok((self.secs as i64, self.nanos as i64))
        } else {
            Err(PollError::TimeoutOverflow)
        }
    }
}

} // verus!
