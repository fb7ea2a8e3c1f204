use write_buffer_budget::Cache;
use write_buffer_budget::WriteBufferManager;

#[test]
fn grow_past_limit_stalls_when_allowed() {
    let mut m = WriteBufferManager::new_with_allow_stall(100, true);
    let below = m.on_memtable_grow(80);
    assert!(!below);
    assert!(!m.currently_stalled());
    let past = m.on_memtable_grow(30);
    assert!(past);
    assert!(m.currently_stalled());
}

#[test]
fn qualifying_shrink_wakes_stalled_writers() {
    let mut m = WriteBufferManager::new_with_allow_stall(100, true);
    assert!(m.on_memtable_grow(150));
    // A shrink that leaves usage above the limit releases nobody.
    let partial = m.on_memtable_shrink(20);
    assert!(!partial.wake_waiters);
    assert!(m.currently_stalled());
    // One that brings usage back to the limit wakes all waiters.
    let enough = m.on_memtable_shrink(30);
    assert!(enough.wake_waiters);
    assert!(!m.currently_stalled());
    assert_eq!(m.memory_usage(), Some(100));
}

#[test]
fn grow_never_stalls_when_disallowed() {
    let mut m = WriteBufferManager::new_with_allow_stall(100, false);
    assert!(!m.on_memtable_grow(99));
    assert!(!m.on_memtable_grow(1000));
    assert!(!m.on_memtable_grow(1000000));
    assert!(!m.currently_stalled());
    assert_eq!(m.memory_usage(), Some(1001099));
}

#[test]
fn grow_never_stalls_when_unlimited() {
    let mut m = WriteBufferManager::new_with_allow_stall(0, true);
    assert!(!m.on_memtable_grow(1000000));
    assert!(!m.currently_stalled());
}

#[test]
fn released_writer_sees_flowing_state_again() {
    let mut m = WriteBufferManager::new_with_allow_stall(50, true);
    assert!(m.on_memtable_grow(60));
    assert!(m.on_memtable_shrink(60).wake_waiters);
    // After release, a grow that stays within the limit flows freely.
    assert!(!m.on_memtable_grow(40));
    assert!(!m.currently_stalled());
}

#[test]
fn stalling_manager_with_cache_still_stalls() {
    let cache = Cache::new_lru_cache(1024);
    let mut m = WriteBufferManager::new_with_cache(100, &cache, true);
    assert!(m.on_memtable_grow(200));
    assert!(m.currently_stalled());
    assert!(m.on_memtable_shrink(150).wake_waiters);
}
