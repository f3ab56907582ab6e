//! The capacity-1, lossy trigger channel between the step timer and the
//! transcription worker.
//!
//! The timer's delivery is fire-and-forget: if the worker has not yet
//! consumed the previous trigger, a new trigger attempt is dropped rather
//! than queued. This is the pipeline's only backpressure mechanism — it
//! keeps at most one transcription request in flight and never lets
//! triggers pile up behind a slow engine.

use vstd::prelude::*;

verus! {

/// A single-slot trigger mailbox: holds at most one pending trigger.
pub struct TriggerSlot {
    occupied: bool,
}

impl TriggerSlot {
    /// Whether a trigger is pending and not yet consumed.
    pub closed spec fn is_occupied(&self) -> bool {
        self.occupied
    }

    /// An empty slot: no trigger pending.
    pub fn new() -> (slot: Self)
        ensures
            !slot.is_occupied(),
    {
        TriggerSlot { occupied: false }
    }

    /// The timer fires. The trigger is accepted only when the slot is
    /// free; otherwise the attempt is dropped — never queued — and the
    /// already pending trigger is left in place. Either way the slot is
    /// occupied afterwards.
    pub fn try_send(&mut self) -> (accepted: bool)
        ensures
            accepted == !old(self).is_occupied(),
            final(self).is_occupied(),
    {
        let accepted = !self.occupied;
        self.occupied = true;
        accepted
    }

    /// The worker consumes a pending trigger, if any, freeing the slot.
    pub fn take(&mut self) -> (got: bool)
        ensures
            got == old(self).is_occupied(),
            !final(self).is_occupied(),
    {
        let got = self.occupied;
        self.occupied = false;
        got
    }
}

} // verus!
