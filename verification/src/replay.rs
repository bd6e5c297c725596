//! The replay policy: a closed two-state machine selecting between one-shot
//! and cyclic consumption, and the shared "refill requested" flag through
//! which the consumer tells the producer that new data is wanted.
//!
//! In `OneShot` mode an exhausted read half forces a swap (the consumer
//! blocks until the write half is ready); in `Cyclic` mode the consumer may
//! instead wrap the cursor and re-emit the current read half. The refill
//! request is issued once per swap attempt in either mode; the mode may be
//! changed externally between any two swap decisions.

use vstd::prelude::*;

verus! {

#[derive(Clone, Copy, PartialEq, Eq, Structural, Debug)]
pub enum ReplayMode {
    OneShot,
    Cyclic,
}

/// The swap-decision modifier handed to the consumer: the replay mode plus
/// the producer-visible refill request flag.
pub struct DacModifier {
    mode: ReplayMode,
    refill_requested: bool,
}

impl DacModifier {
    pub closed spec fn mode(&self) -> ReplayMode {
        self.mode
    }

    /// Whether the consumer has asked the producer for fresh data.
    pub closed spec fn refill_requested(&self) -> bool {
        self.refill_requested
    }

    /// A new policy; the refill request starts raised so that the producer
    /// supplies the first buffer without waiting for a drain.
    pub fn new(mode: ReplayMode) -> (r: Self)
        ensures
            r.mode() == mode,
            r.refill_requested(),
    {
        DacModifier { mode, refill_requested: true }
    }

    /// Whether the current mode replays the read half cyclically.
    pub fn cyclic(&self) -> (r: bool)
        ensures
            r == (self.mode() is Cyclic),
    {
        match self.mode {
            ReplayMode::Cyclic => true,
            ReplayMode::OneShot => false,
        }
    }

    /// Whether an exhausted read half forces the consumer to swap (and so
    /// to block until the write half is ready).
    pub fn should_force_swap_on_empty(&self) -> (r: bool)
        ensures
            r == (self.mode() is OneShot),
    {
        match self.mode {
            ReplayMode::OneShot => true,
            ReplayMode::Cyclic => false,
        }
    }

    /// Whether the refill request is currently raised (the producer's view
    /// of the shared flag).
    pub fn is_refill_requested(&self) -> (r: bool)
        ensures
            r == self.refill_requested(),
    {
        self.refill_requested
    }

    /// Raise the refill request; invoked once per swap attempt so that the
    /// producer may compute and publish new data.
    pub fn swap(&mut self)
        ensures
            final(self).mode() == old(self).mode(),
            final(self).refill_requested(),
    {
        self.refill_requested = true;
    }

    /// Clear the refill request: the producer acknowledges that the pending
    /// request is being served.
    pub fn clear_request(&mut self)
        ensures
            final(self).mode() == old(self).mode(),
            !final(self).refill_requested(),
    {
        self.refill_requested = false;
    }

    /// Change the mode; takes effect at the next swap decision.
    pub fn set_mode(&mut self, mode: ReplayMode)
        ensures
            final(self).mode() == mode,
            final(self).refill_requested() == old(self).refill_requested(),
    {
        self.mode = mode;
    }
}

} // verus!
