//! The manual-refresh handoff between the render side (writer) and the poller
//! (consumer).
//!
//! The signal is a single boolean slot. Raising it is idempotent; consuming it
//! reads and clears it in one call, so a raise is acted on at most once.
//! The embedding program serializes the calls (it keeps the signal behind a
//! mutex); what each serialized call does is pinned down here, which rules out
//! the check-then-act races a separate read and clear would admit: no raise
//! triggers two fetch cycles, and a raise that a consume observed set is never
//! lost.

use vstd::prelude::*;

verus! {

/// A single-slot boolean signal: `true` while a manual refresh is pending.
pub struct RefreshSignal {
    raised: bool,
}

impl View for RefreshSignal {
    type V = bool;

    closed spec fn view(&self) -> bool {
        self.raised
    }
}

/// What raising does to the slot: it is pending afterwards, whatever it was.
pub open spec fn spec_raise(pending: bool) -> bool {
    true
}

/// What consuming does to the slot: the pair of the slot afterwards (always
/// cleared) and what the consumer observed (the slot as it was).
pub open spec fn spec_consume(pending: bool) -> (bool, bool) {
    (false, pending)
}

impl RefreshSignal {
    /// A fresh signal, with no refresh pending.
    pub fn new() -> (signal: Self)
        ensures
            !signal@,
    {
        RefreshSignal { raised: false }
    }

    /// Marks a manual refresh as pending.
    pub fn raise(&mut self)
        ensures
            final(self)@ == spec_raise(old(self)@),
    {
        self.raised = true;
    }

    /// Reads and clears the slot in one call, returning whether a refresh was
    /// pending. The caller fetches exactly when this returns `true`.
    pub fn consume(&mut self) -> (was_pending: bool)
        ensures
            (final(self)@, was_pending) == spec_consume(old(self)@),
    {
        let was = self.raised;
        self.raised = false;
        was
    }
}

/// A raise is consumed exactly once: starting from any slot state, after a
/// raise the first consume observes the pending refresh (so its fetch cycle
/// happens) and the second consume does not (so no second cycle does).
pub proof fn law_consume_at_most_once(pending0: bool)
    ensures
        ({
            let pending1 = spec_raise(pending0);
            let (pending2, first) = spec_consume(pending1);
            let (pending3, second) = spec_consume(pending2);
            first && !second && !pending3
        }),
{
}

} // verus!
