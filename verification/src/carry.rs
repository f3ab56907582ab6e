//! The window extractor and its carry policy.
//!
//! On each trigger the extractor snapshots the accumulator, decides whether
//! the snapshot filled a window, and derives the correction flag for the
//! caption emitted now from the outcome of the *previous* trigger: a full
//! window leaves its carried-over tail to be re-recognized by the next
//! window, so the next caption must replace — not follow — the tentative
//! text shown for this one.

use vstd::prelude::*;

use crate::accumulator::{kept_tail, window_full, Sample, SampleAccumulator};

verus! {

/// The carry-policy transition: the correction flag pending after a
/// trigger is exactly whether that trigger's window was full, regardless
/// of what was pending before.
pub open spec fn carry_next(pending: bool, full: bool) -> bool {
    full
}

/// The correction flag pending before trigger `n` (0-based), for a run
/// whose windows were full as `fulls` says, starting cold with no pending
/// correction.
pub open spec fn fix_flag_at(fulls: Seq<bool>, n: int) -> bool
    decreases n,
{
    if n <= 0 {
        false
    } else {
        carry_next(fix_flag_at(fulls, n - 1), fulls[n - 1])
    }
}

/// Worker-local state of the window extractor: whether the caption emitted
/// on the next trigger corrects the previous one.
pub struct WindowExtractor {
    fix_next: bool,
}

impl WindowExtractor {
    /// Whether the next emitted caption will be a correction.
    pub closed spec fn pending_fix(&self) -> bool {
        self.fix_next
    }

    /// A cold-started extractor: the first caption is never a correction.
    pub fn new() -> (ex: Self)
        ensures
            !ex.pending_fix(),
    {
        WindowExtractor { fix_next: false }
    }

    /// Handles one delivered trigger: snapshots the accumulator, drains it
    /// when the window is full (re-seeding the carry-over tail), and
    /// returns the snapshot together with the correction flag for the
    /// caption this trigger emits. The flag reports the *previous*
    /// trigger's outcome; this trigger's outcome becomes the flag of the
    /// next one.
    pub fn on_trigger(
        &mut self,
        acc: &mut SampleAccumulator,
        window_samples: usize,
        keep_samples: usize,
    ) -> (r: (Vec<Sample>, bool))
        requires
            old(acc).wf(),
        ensures
            final(acc).cap() == old(acc).cap(),
            final(acc).wf(),
            r.0@ == old(acc)@,
            r.1 == old(self).pending_fix(),
            final(self).pending_fix() == carry_next(
                old(self).pending_fix(),
                window_full(old(acc)@, window_samples as int),
            ),
            window_full(old(acc)@, window_samples as int) ==> final(acc)@ == kept_tail(
                old(acc)@,
                keep_samples as int,
            ),
            !window_full(old(acc)@, window_samples as int) ==> final(acc)@ == old(acc)@,
    {
        let fix = self.fix_next;
        let (snapshot, full) = acc.drain_window(window_samples, keep_samples);
        self.fix_next = full;
        (snapshot, fix)
    }
}

/// Fix-flag derivation law: the correction flag on trigger `n` equals the
/// `full` outcome of trigger `n - 1`, and is `false` on the first trigger
/// from a cold start.
pub proof fn lemma_fix_flag_derivation(fulls: Seq<bool>, n: int)
    requires
        0 <= n <= fulls.len(),
    ensures
        fix_flag_at(fulls, 0) == false,
        n >= 1 ==> fix_flag_at(fulls, n) == fulls[n - 1],
{
}

} // verus!
