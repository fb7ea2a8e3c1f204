//! A shared write-buffer memory budget manager.
//!
//! One or more storage-engine instances report every memtable allocation and
//! release to a single [`WriteBufferManager`], which tracks total usage,
//! enforces an optional global ceiling, optionally charges the tracked memory
//! against a shared block cache's budget, and decides when writers must stall
//! and when stalled writers are released.

pub mod accountant;
pub mod cache_budget;
pub mod model;
pub mod stall;
pub mod write_buffer_manager;

pub use accountant::MemoryAccountant;
pub use cache_budget::Cache;
pub use cache_budget::CacheCostReservation;
pub use stall::StallController;
pub use stall::StallState;
pub use write_buffer_manager::ShrinkOutcome;
pub use write_buffer_manager::WriteBufferManager;
