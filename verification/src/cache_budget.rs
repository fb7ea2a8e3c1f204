//! Cost accounting of write-buffer memory against a shared block cache: one
//! dummy reservation, resized in place as usage changes, so the cache's own
//! budget sees memtable memory without ever holding more than a single entry
//! for it.

use vstd::prelude::*;

verus! {

/// What the cache actually charges for a requested reservation cost: the
/// full request, degraded to the cache's capacity when the request exceeds
/// it. The shortfall is advisory — usage tracking itself stays exact.
pub open spec fn honored_cost(requested: int, capacity: int) -> int {
    if requested <= capacity {
        requested
    } else {
        capacity
    }
}

/// A shared block cache as the budget manager sees it: a fixed capacity in
/// bytes against which reservations are costed.
pub struct Cache {
    pub capacity_bytes: usize,
}

impl Cache {
    /// A least-recently-used cache with the given total capacity in bytes.
    pub fn new_lru_cache(capacity_bytes: usize) -> (r: Cache)
        ensures
            r.capacity_bytes == capacity_bytes,
    {
        Cache { capacity_bytes }
    }
}

/// The single logical dummy entry kept in a shared cache on behalf of
/// write-buffer memory. It is resized, never re-inserted, as usage changes,
/// so the cache sees exactly one entry for the life of the manager and its
/// eviction heuristics are not churned.
#[derive(Clone, Copy)]
pub struct CacheCostReservation {
    pub capacity_bytes: usize,
    pub charged_bytes: usize,
    pub entry_count: usize,
}

impl CacheCostReservation {
    /// Exactly one entry exists, and the charge never exceeds what the cache
    /// can hold.
    pub open spec fn wf(&self) -> bool {
        self.entry_count == 1 && self.charged_bytes <= self.capacity_bytes
    }

    /// Reserve the initial dummy entry, of cost zero, in the given cache.
    pub fn new(cache: &Cache) -> (r: CacheCostReservation)
        ensures
            r.wf(),
            r.capacity_bytes == cache.capacity_bytes,
            r.charged_bytes == 0,
            r.entry_count == 1,
    {
        CacheCostReservation {
            capacity_bytes: cache.capacity_bytes,
            charged_bytes: 0,
            entry_count: 1,
        }
    }

    /// Resize the one dummy entry so its cost mirrors current usage, as far
    /// as the cache can honor it. No further entry is ever inserted.
    pub fn resize_to(&mut self, used_bytes: usize)
        ensures
            final(self).capacity_bytes == old(self).capacity_bytes,
            final(self).entry_count == old(self).entry_count,
            final(self).charged_bytes as int == honored_cost(
                used_bytes as int,
                old(self).capacity_bytes as int,
            ),
            old(self).wf() ==> final(self).wf(),
    {
        self.charged_bytes = if used_bytes <= self.capacity_bytes {
            used_bytes
        } else {
            self.capacity_bytes
        };
    }
}

} // verus!
