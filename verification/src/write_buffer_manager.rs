//! The public unit: a budget manager composing the usage accountant, the
//! optional cache cost reservation, and the stall controller behind a single
//! handle. Engine instances report every memtable grow and shrink here; the
//! manager keeps the byte count exact, mirrors it into the cache's budget
//! when a cache was supplied, and decides when writers stall and when they
//! are released.

use vstd::prelude::*;

use crate::accountant::MemoryAccountant;
use crate::cache_budget::Cache;
use crate::cache_budget::CacheCostReservation;
use crate::cache_budget::honored_cost;
use crate::model::clamped_step;
use crate::stall::StallController;
use crate::stall::StallState;
use crate::stall::must_stall;
use crate::stall::shrink_wakes;

verus! {

/// What a shrink report decided: whether the free underflowed tracked usage
/// (an integration fault, clamped rather than wrapped), and whether every
/// currently stalled writer is to be woken.
#[derive(Clone, Copy, PartialEq, Eq, Structural, Debug)]
pub struct ShrinkOutcome {
    pub underflow: bool,
    pub wake_waiters: bool,
}

/// A write-buffer budget manager, shared by any number of storage-engine
/// instances to control their total memtable memory.
///
/// `buffer_size_limit` is the configured ceiling, with zero meaning no
/// limit; it and the stall policy are fixed at construction. Usage is
/// tracked whether or not a limit is configured — tracking and enforcement
/// are independent.
#[derive(Clone)]
pub struct WriteBufferManager {
    pub buffer_size_limit: usize,
    pub accountant: MemoryAccountant,
    pub stall: StallController,
    pub reservation: Option<CacheCostReservation>,
}

impl WriteBufferManager {
    /// The configured ceiling in bytes; zero means no limit.
    pub open spec fn limit_bytes(&self) -> usize {
        self.buffer_size_limit
    }

    /// Bytes currently tracked as reserved for write buffers.
    pub open spec fn used_bytes(&self) -> usize {
        self.accountant.used_bytes
    }

    /// How many underflowing frees have been recorded.
    pub open spec fn underflow_events(&self) -> usize {
        self.accountant.underflow_events
    }

    /// Whether writers may be stalled when usage exceeds the limit.
    pub open spec fn stall_allowed(&self) -> bool {
        self.stall.allow_stall
    }

    /// Whether writers are currently stalled.
    pub open spec fn is_stalled(&self) -> bool {
        self.stall.state is Stalled
    }

    /// Whether a cache was supplied at construction.
    pub open spec fn has_cache(&self) -> bool {
        self.reservation is Some
    }

    /// The capacity of the supplied cache; zero when none was supplied.
    pub open spec fn cache_capacity(&self) -> usize {
        match self.reservation {
            Some(r) => r.capacity_bytes,
            None => 0,
        }
    }

    /// The cost currently charged to the supplied cache; zero when none was
    /// supplied.
    pub open spec fn cache_charged(&self) -> usize {
        match self.reservation {
            Some(r) => r.charged_bytes,
            None => 0,
        }
    }

    /// How many entries the manager holds in the supplied cache; zero when
    /// none was supplied.
    pub open spec fn cache_entry_count(&self) -> usize {
        match self.reservation {
            Some(r) => r.entry_count,
            None => 0,
        }
    }

    /// A limit greater than zero makes the manager enforce its ceiling.
    pub open spec fn spec_enabled(&self) -> bool {
        self.buffer_size_limit > 0
    }

    /// What the public usage query answers: current usage on an enabled
    /// manager, absence of an enforced ceiling otherwise.
    pub open spec fn spec_memory_usage(&self) -> Option<usize> {
        if self.spec_enabled() {
            Some(self.accountant.used_bytes)
        } else {
            None
        }
    }

    /// The two configuration flags and the cache identity never change after
    /// construction.
    pub open spec fn same_config(&self, other: &WriteBufferManager) -> bool {
        &&& self.limit_bytes() == other.limit_bytes()
        &&& self.stall_allowed() == other.stall_allowed()
        &&& self.has_cache() == other.has_cache()
        &&& self.cache_capacity() == other.cache_capacity()
    }

    /// Well-formedness: the manager is stalled only while stalling is
    /// allowed, a limit is configured and usage exceeds it; and when a cache
    /// was supplied, its single reservation entry is charged exactly the
    /// honored cost of current usage.
    pub open spec fn wf(&self) -> bool {
        &&& self.stall.wf(self.buffer_size_limit)
        &&& (self.stall.state is Stalled ==> self.accountant.used_bytes > self.buffer_size_limit)
        &&& match self.reservation {
            Some(r) => r.wf() && r.charged_bytes as int == honored_cost(
                self.accountant.used_bytes as int,
                r.capacity_bytes as int,
            ),
            None => true,
        }
    }

    /// A manager with a set `buffer_size` and no stalling.
    ///
    /// `buffer_size` = 0 indicates no limit.
    pub fn new(buffer_size: usize) -> (r: WriteBufferManager)
        ensures
            r.wf(),
            r.limit_bytes() == buffer_size,
            !r.stall_allowed(),
            r.used_bytes() == 0,
            r.underflow_events() == 0,
            !r.is_stalled(),
            !r.has_cache(),
    {
        Self::new_with_allow_stall(buffer_size, false)
    }

    /// A manager with a set `buffer_size` and an `allow_stall` policy.
    ///
    /// `allow_stall`: if true, writers growing usage past `buffer_size` are
    /// stalled until frees bring usage back down.
    ///
    /// `buffer_size` = 0 indicates no limit.
    pub fn new_with_allow_stall(buffer_size: usize, allow_stall: bool) -> (r: WriteBufferManager)
        ensures
            r.wf(),
            r.limit_bytes() == buffer_size,
            r.stall_allowed() == allow_stall,
            r.used_bytes() == 0,
            r.underflow_events() == 0,
            !r.is_stalled(),
            !r.has_cache(),
    {
        WriteBufferManager {
            buffer_size_limit: buffer_size,
            accountant: MemoryAccountant::new(),
            stall: StallController::new(allow_stall),
            reservation: None,
        }
    }

    /// A manager that also charges tracked memory against `cache`, through a
    /// single dummy reservation. Usable even with `buffer_size` = 0; the
    /// cache may be shared across engine instances.
    pub fn new_with_cache(buffer_size: usize, cache: &Cache, allow_stall: bool) -> (r:
        WriteBufferManager)
        ensures
            r.wf(),
            r.limit_bytes() == buffer_size,
            r.stall_allowed() == allow_stall,
            r.used_bytes() == 0,
            r.underflow_events() == 0,
            !r.is_stalled(),
            r.has_cache(),
            r.cache_capacity() == cache.capacity_bytes,
            r.cache_charged() == 0,
            r.cache_entry_count() == 1,
    {
        WriteBufferManager {
            buffer_size_limit: buffer_size,
            accountant: MemoryAccountant::new(),
            stall: StallController::new(allow_stall),
            reservation: Some(CacheCostReservation::new(cache)),
        }
    }

    /// True when a `buffer_size` greater than 0 was configured to limit the
    /// total memory usage. Independent of the stall policy and of current
    /// usage.
    pub fn enabled(&self) -> (r: bool)
        ensures
            r == self.spec_enabled(),
    {
        self.buffer_size_limit > 0
    }

    /// The total memory used by memtables, if enabled; a disabled manager
    /// still tracks usage internally but answers `None`, signalling that no
    /// ceiling is enforced.
    pub fn memory_usage(&self) -> (r: Option<usize>)
        ensures
            r == self.spec_memory_usage(),
            (r is Some) == self.spec_enabled(),
    {
        if self.enabled() {
            Some(self.accountant.current_usage())
        } else {
            None
        }
    }

    /// The configured `buffer_size`; zero means no limit.
    pub fn buffer_size(&self) -> (r: usize)
        ensures
            r == self.limit_bytes(),
    {
        self.buffer_size_limit
    }

    /// Whether writers are currently stalled; a released waiter re-checks
    /// this before proceeding, since usage may have risen again.
    pub fn currently_stalled(&self) -> (r: bool)
        ensures
            r == self.is_stalled(),
    {
        match self.stall.state {
            StallState::Stalled => true,
            StallState::Flowing => false,
        }
    }

    /// Report `bytes` of new memtable memory. Usage rises by exactly
    /// `bytes`, the cache charge (if any) is resized to mirror it, and the
    /// returned flag tells the calling writer whether it must block until
    /// frees bring usage back to or below the limit.
    pub fn on_memtable_grow(&mut self, bytes: usize) -> (must_block: bool)
        requires
            old(self).wf(),
            old(self).used_bytes() + bytes <= usize::MAX,
        ensures
            final(self).wf(),
            final(self).same_config(old(self)),
            final(self).used_bytes() == old(self).used_bytes() + bytes,
            final(self).used_bytes() as int == clamped_step(
                old(self).used_bytes() as int,
                bytes as int,
            ),
            final(self).underflow_events() == old(self).underflow_events(),
            must_block == must_stall(
                old(self).stall_allowed(),
                old(self).limit_bytes(),
                old(self).used_bytes() + bytes,
            ),
            final(self).is_stalled() == must_block,
            old(self).has_cache() ==> final(self).cache_charged() as int == honored_cost(
                final(self).used_bytes() as int,
                old(self).cache_capacity() as int,
            ),
            final(self).cache_entry_count() == old(self).cache_entry_count(),
    {
        self.accountant.record_allocation(bytes);
        let used = self.accountant.current_usage();
        match &mut self.reservation {
            Some(r) => r.resize_to(used),
            None => {},
        }
        self.stall.on_usage_increased(self.buffer_size_limit, used)
    }

    /// Report `bytes` of memtable memory released (flush completion,
    /// instance close). Never blocks the caller — it is the operation that
    /// releases others. Usage falls by `bytes`, clamped at the zero floor;
    /// the cache charge (if any) is resized to mirror it; and the outcome
    /// says whether the free underflowed and whether all stalled writers are
    /// to be woken.
    pub fn on_memtable_shrink(&mut self, bytes: usize) -> (r: ShrinkOutcome)
        requires
            old(self).wf(),
        ensures
            final(self).wf(),
            final(self).same_config(old(self)),
            final(self).used_bytes() as int == clamped_step(
                old(self).used_bytes() as int,
                -(bytes as int),
            ),
            r.underflow == (bytes > old(self).used_bytes()),
            final(self).underflow_events() == if r.underflow && old(self).underflow_events()
                < usize::MAX {
                old(self).underflow_events() + 1
            } else {
                old(self).underflow_events() as int
            },
            r.wake_waiters == shrink_wakes(
                old(self).is_stalled(),
                old(self).limit_bytes(),
                final(self).used_bytes() as int,
            ),
            final(self).is_stalled() == (old(self).is_stalled() && !r.wake_waiters),
            old(self).has_cache() ==> final(self).cache_charged() as int == honored_cost(
                final(self).used_bytes() as int,
                old(self).cache_capacity() as int,
            ),
            final(self).cache_entry_count() == old(self).cache_entry_count(),
    {
        let underflow = self.accountant.record_free(bytes);
        let used = self.accountant.current_usage();
        match &mut self.reservation {
            Some(r) => r.resize_to(used),
            None => {},
        }
        let wake_waiters = self.stall.on_usage_decreased(self.buffer_size_limit, used);
        ShrinkOutcome { underflow, wake_waiters }
    }
}

/// Whether the manager enforces a ceiling depends on the configured limit
/// alone: two managers with the same limit agree on it, whatever their stall
/// policies, caches or current usage.
pub proof fn lemma_enabled_depends_only_on_limit(a: WriteBufferManager, b: WriteBufferManager)
    requires
        a.limit_bytes() == b.limit_bytes(),
    ensures
        a.spec_enabled() == b.spec_enabled(),
{
}

/// The usage query answers `Some` exactly on enabled managers, and an
/// enabled manager that has seen no activity answers `Some(0)`.
pub proof fn lemma_memory_usage_query(m: WriteBufferManager)
    ensures
        (m.spec_memory_usage() is Some) == m.spec_enabled(),
        m.spec_enabled() && m.used_bytes() == 0 ==> m.spec_memory_usage() == Some(0usize),
{
}

/// With a cache supplied, a well-formed manager charges that cache exactly
/// the honored cost of current usage — the full amount when it fits, the
/// cache's capacity when it does not — through a single reservation entry.
pub proof fn lemma_cache_mirrors_usage(m: WriteBufferManager)
    requires
        m.wf(),
        m.has_cache(),
    ensures
        m.cache_charged() as int == honored_cost(m.used_bytes() as int, m.cache_capacity() as int),
        m.cache_entry_count() == 1,
{
}

} // verus!
