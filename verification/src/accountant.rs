//! The ground truth for how much memtable memory is currently reserved: a
//! byte counter increased on every allocation, decreased — clamped at the
//! zero floor — on every free, with a diagnostic count of underflowing frees.

use vstd::prelude::*;

use crate::model::clamped_step;

verus! {

/// Counter of bytes currently reserved for write buffers.
///
/// A free that exceeds tracked usage is an integration fault in the
/// collaborator: the counter is clamped at zero rather than wrapped, and the
/// fault is recorded in `underflow_events` and reported to the caller.
#[derive(Clone, Copy)]
pub struct MemoryAccountant {
    pub used_bytes: usize,
    pub underflow_events: usize,
}

impl MemoryAccountant {
    /// A fresh accountant with nothing reserved and no faults recorded.
    pub fn new() -> (r: MemoryAccountant)
        ensures
            r.used_bytes == 0,
            r.underflow_events == 0,
    {
        MemoryAccountant { used_bytes: 0, underflow_events: 0 }
    }

    /// Increase tracked usage by `bytes`.
    pub fn record_allocation(&mut self, bytes: usize)
        requires
            old(self).used_bytes + bytes <= usize::MAX,
        ensures
            final(self).used_bytes == old(self).used_bytes + bytes,
            final(self).used_bytes as int == clamped_step(old(self).used_bytes as int, bytes as int),
            final(self).underflow_events == old(self).underflow_events,
    {
        self.used_bytes = self.used_bytes + bytes;
    }

    /// Decrease tracked usage by `bytes`, clamped at the zero floor.
    ///
    /// Returns true exactly when the free exceeded tracked usage; that fault
    /// is also counted in `underflow_events` (the count itself saturates).
    pub fn record_free(&mut self, bytes: usize) -> (underflow: bool)
        ensures
            underflow == (bytes > old(self).used_bytes),
            final(self).used_bytes as int == clamped_step(
                old(self).used_bytes as int,
                -(bytes as int),
            ),
            final(self).underflow_events == if underflow && old(self).underflow_events
                < usize::MAX {
                old(self).underflow_events + 1
            } else {
                old(self).underflow_events as int
            },
    {
        if bytes <= self.used_bytes {
            self.used_bytes = self.used_bytes - bytes;
            false
        } else {
            self.used_bytes = 0;
            if self.underflow_events < usize::MAX {
                self.underflow_events = self.underflow_events + 1;
            }
            true
        }
    }

    /// A snapshot read of current usage.
    pub fn current_usage(&self) -> (r: usize)
        ensures
            r == self.used_bytes,
    {
        self.used_bytes
    }
}

} // verus!
