//! Decomposition of an overlarge wait into bounded primitive calls.
//!
//! A millisecond-based polling primitive takes its timeout as a signed
//! 32-bit count, so a single call can wait at most `i32::MAX` milliseconds
//! (roughly 24.8 days).  A caller may legitimately request more.  Rather
//! than truncate, the poll is issued as a sequence of calls: each one waits
//! the per-call ceiling while more than the ceiling remains, and the last
//! waits exactly the remainder.  A call that observes readiness ends the
//! sequence at once; a call that fails ends it with the platform's error.
//!
//! [`MsChunks`] is the state of one such sequence, advanced by the outcome
//! of each primitive call; [`chunk_list`] is the sequence of per-call waits
//! it issues when no call observes readiness, and
//! [`lemma_chunks_cover_request`] states that those waits add up to exactly
//! the requested amount.

use vstd::prelude::*;
use crate::report::PollOutcome;
use crate::timeout::PollTimeout;

verus! {

/// What the chunking state directs the driver to do after one primitive
/// call's outcome has been taken in.
#[derive(Clone, Copy, Debug, PartialEq, Eq, Structural)]
pub enum PollDecision {
    /// Wait budget remains: issue the next primitive call.
    Continue,
    /// Readiness was observed: report it without waiting out the rest of
    /// the budget.
    Ready,
    /// The whole requested wait elapsed without an observed event.
    TimedOut,
    /// The primitive failed: report the platform's error.
    Failed,
}

/// The per-call waits, in milliseconds, that a poll of `ms` milliseconds
/// issues when every call reports an elapsed timeout: the per-call ceiling
/// while more than the ceiling remains, then the remainder.
pub open spec fn chunk_list(ms: int) -> Seq<int>
    decreases ms,
{
    if ms > i32::MAX {
        seq![i32::MAX as int] + chunk_list(ms - i32::MAX)
    } else {
        seq![ms]
    }
}

/// The total amount of a sequence of per-call waits.
pub open spec fn chunk_total(s: Seq<int>) -> int
    decreases s.len(),
{
    if s.len() == 0 {
        0
    } else {
        s[0] + chunk_total(s.drop_first())
    }
}

/// The chunked waits of a bounded poll cover the requested amount exactly:
/// they add up to `ms`, there is at least one call, and each call's wait
/// fits the primitive's signed 32-bit timeout argument.  No wait is lost to
/// truncation and none is added.
pub proof fn lemma_chunks_cover_request(ms: int)
    requires
        0 <= ms,
    ensures
        chunk_total(chunk_list(ms)) == ms,
        chunk_list(ms).len() >= 1,
        forall|i: int| 0 <= i < chunk_list(ms).len() ==> 0 <= #[trigger] chunk_list(ms)[i] <= i32::MAX,
    decreases ms,
{
    if ms > i32::MAX {
        lemma_chunks_cover_request(ms - i32::MAX);
        let rest = chunk_list(ms - i32::MAX);
        let whole = seq![i32::MAX as int] + rest;
        assert(chunk_list(ms) == whole);
        assert(whole.drop_first() =~= rest);
        assert(whole.len() >= 1 && whole[0] == i32::MAX as int);
        assert(chunk_total(whole) == whole[0] + chunk_total(whole.drop_first()));
        assert(forall|i: int|
            0 <= i < whole.len() ==> 0 <= #[trigger] whole[i] <= i32::MAX) by {
            assert(forall|i: int| 1 <= i < whole.len() ==> #[trigger] whole[i] == rest[i - 1]);
        }
    } else {
        assert(chunk_list(ms) == seq![ms]);
        assert(seq![ms].drop_first() =~= Seq::<int>::empty());
        assert(chunk_total(Seq::<int>::empty()) == 0);
        assert(chunk_total(seq![ms]) == ms + chunk_total(seq![ms].drop_first()));
    }
}

/// The remaining wait budget of one bounded poll over a millisecond-based
/// primitive.  Its view is the remaining millisecond count.
pub struct MsChunks {
    left: u128,
}

impl View for MsChunks {
    type V = int;

    closed spec fn view(&self) -> int {
        self.left as int
    }
}

impl MsChunks {
    /// Start a bounded poll: the budget is the requested duration as whole
    /// milliseconds.
    pub fn begin(t: &PollTimeout) -> (m: Self)
        ensures
            m@ == t.as_millis_spec(),
    {
        MsChunks { left: t.as_millis() }
    }

    /// The timeout argument of the next primitive call: the whole remaining
    /// budget when it fits one call, the per-call ceiling otherwise.
    pub fn call_timeout_ms(&self) -> (ms: i32)
        ensures
            ms == chunk_list(self@)[0],
            0 <= ms <= i32::MAX,
    {
        if self.left > (i32::MAX as u128) {
            i32::MAX
        } else {
            self.left as i32
        }
    }

    /// Take in the outcome of one primitive call.  Readiness and failure
    /// end the poll at once, whatever budget remains; an elapsed timeout
    /// spends one call's wait and ends the poll exactly when the budget is
    /// used up.
    pub fn advance(&mut self, o: PollOutcome) -> (d: PollDecision)
        ensures
            o is Ready ==> d is Ready && final(self)@ == old(self)@,
            o is Failed ==> d is Failed && final(self)@ == old(self)@,
            o is TimedOut && old(self)@ > i32::MAX ==> d is Continue
                && final(self)@ == old(self)@ - i32::MAX
                && chunk_list(final(self)@) == chunk_list(old(self)@).drop_first(),
            o is TimedOut && old(self)@ <= i32::MAX ==> d is TimedOut && final(self)@ == 0,
    {
        match o {
            PollOutcome::Ready => PollDecision::Ready,
            PollOutcome::Failed => PollDecision::Failed,
            PollOutcome::TimedOut => {
                if self.left > (i32::MAX as u128) {
                    self.left = self.left - (i32::MAX as u128);
                    proof {
                        assert((seq![i32::MAX as int] + chunk_list(self.left as int))
                            .drop_first() =~= chunk_list(self.left as int));
                    }
                    PollDecision::Continue
                } else {
                    self.left = 0;
                    PollDecision::TimedOut
                }
            },
        }
    }
}

} // verus!
