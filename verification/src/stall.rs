//! The write-throttle state machine: the manager is either flowing or
//! stalled. A grow that pushes usage past a configured limit stalls its
//! caller when stalling is allowed; a shrink that brings usage back to or
//! below the limit releases every stalled writer at once (broadcast, with no
//! ordering promised among them).

use vstd::prelude::*;

verus! {

/// The per-manager throttle state. Any number of writers may be waiting
/// while the manager is `Stalled`; the state is not per-caller.
#[derive(Clone, Copy, PartialEq, Eq, Structural, Debug)]
pub enum StallState {
    Flowing,
    Stalled,
}

/// A grow must stall its caller exactly when stalling is allowed, a nonzero
/// limit is configured, and usage after the grow exceeds the limit.
pub open spec fn must_stall(allow_stall: bool, limit_bytes: usize, used_after: int) -> bool {
    allow_stall && limit_bytes > 0 && used_after > limit_bytes
}

/// A shrink wakes the stalled writers (all of them, as a broadcast) exactly
/// when some are stalled and usage after the shrink is back at or below the
/// limit.
pub open spec fn shrink_wakes(stalled: bool, limit_bytes: usize, used_after: int) -> bool {
    stalled && used_after <= limit_bytes
}

/// Decides, after every usage change, whether callers block and whether
/// waiters are released. `allow_stall` is fixed at construction.
#[derive(Clone, Copy)]
pub struct StallController {
    pub allow_stall: bool,
    pub state: StallState,
}

impl StallController {
    /// The manager is stalled only when stalling is allowed and a nonzero
    /// limit is configured; a disabled or advisory-only manager always flows.
    pub open spec fn wf(&self, limit_bytes: usize) -> bool {
        self.state is Stalled ==> (self.allow_stall && limit_bytes > 0)
    }

    /// A fresh controller: flowing, with the stall policy fixed.
    pub fn new(allow_stall: bool) -> (r: StallController)
        ensures
            r.allow_stall == allow_stall,
            r.state is Flowing,
    {
        StallController { allow_stall, state: StallState::Flowing }
    }

    /// Re-evaluate the throttle after a grow brought usage to `used_bytes`.
    /// Returns whether the calling writer must block until released.
    pub fn on_usage_increased(&mut self, limit_bytes: usize, used_bytes: usize) -> (block: bool)
        ensures
            final(self).allow_stall == old(self).allow_stall,
            block == must_stall(old(self).allow_stall, limit_bytes, used_bytes as int),
            final(self).state is Stalled <==> block,
            final(self).wf(limit_bytes),
    {
        if self.allow_stall && limit_bytes > 0 && used_bytes > limit_bytes {
            self.state = StallState::Stalled;
            true
        } else {
            self.state = StallState::Flowing;
            false
        }
    }

    /// Re-evaluate the throttle after a shrink brought usage to `used_bytes`.
    /// Returns whether all currently stalled writers are to be woken; the
    /// caller itself never blocks here.
    pub fn on_usage_decreased(&mut self, limit_bytes: usize, used_bytes: usize) -> (wake: bool)
        requires
            old(self).wf(limit_bytes),
        ensures
            final(self).allow_stall == old(self).allow_stall,
            wake == shrink_wakes(old(self).state is Stalled, limit_bytes, used_bytes as int),
            final(self).state is Stalled <==> (old(self).state is Stalled && used_bytes
                > limit_bytes),
            final(self).wf(limit_bytes),
    {
        match self.state {
            StallState::Stalled => {
                if used_bytes <= limit_bytes {
                    self.state = StallState::Flowing;
                    true
                } else {
                    false
                }
            },
            StallState::Flowing => false,
        }
    }
}

/// A writer stalled by a grow is released by any shrink that brings usage
/// back to or below the limit: the stalled state together with the
/// qualifying usage level is exactly the broadcast-wake condition, whatever
/// happened in between.
pub proof fn lemma_qualifying_shrink_wakes(
    allow_stall: bool,
    limit_bytes: usize,
    used_after_grow: int,
    used_after_shrink: int,
)
    requires
        must_stall(allow_stall, limit_bytes, used_after_grow),
        used_after_shrink <= limit_bytes,
    ensures
        shrink_wakes(true, limit_bytes, used_after_shrink),
{
}

/// With stalling disallowed, no grow ever blocks, whatever the limit and
/// however far usage exceeds it: the limit is advisory only.
pub proof fn lemma_no_stall_when_disallowed(limit_bytes: usize, used_after: int)
    ensures
        !must_stall(false, limit_bytes, used_after),
{
}

} // verus!
