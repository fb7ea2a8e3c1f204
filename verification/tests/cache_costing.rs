use write_buffer_budget::Cache;
use write_buffer_budget::CacheCostReservation;
use write_buffer_budget::WriteBufferManager;

fn reservation(m: &WriteBufferManager) -> &CacheCostReservation {
    m.reservation.as_ref().expect("a cache was supplied")
}

#[test]
fn cache_charge_mirrors_usage() {
    let cache = Cache::new_lru_cache(100000);
    let mut m = WriteBufferManager::new_with_cache(1000000, &cache, false);
    assert_eq!(reservation(&m).charged_bytes, 0);
    m.on_memtable_grow(30000);
    assert_eq!(reservation(&m).charged_bytes, 30000);
    m.on_memtable_grow(20000);
    assert_eq!(reservation(&m).charged_bytes, 50000);
    m.on_memtable_shrink(45000);
    assert_eq!(reservation(&m).charged_bytes, 5000);
    m.on_memtable_shrink(5000);
    assert_eq!(reservation(&m).charged_bytes, 0);
}

#[test]
fn reservation_count_stays_at_one() {
    let cache = Cache::new_lru_cache(100000);
    let mut m = WriteBufferManager::new_with_cache(1000000, &cache, false);
    assert_eq!(reservation(&m).entry_count, 1);
    m.on_memtable_grow(30000);
    assert_eq!(reservation(&m).entry_count, 1);
    m.on_memtable_grow(20000);
    assert_eq!(reservation(&m).entry_count, 1);
    m.on_memtable_shrink(50000);
    assert_eq!(reservation(&m).entry_count, 1);
}

#[test]
fn small_cache_degrades_to_capacity() {
    let cache = Cache::new_lru_cache(10240);
    let mut m = WriteBufferManager::new_with_cache(102400, &cache, false);
    m.on_memtable_grow(50000);
    // The cache cannot hold the full cost; the charge is capped at capacity,
    // while usage tracking itself stays exact.
    assert_eq!(reservation(&m).charged_bytes, 10240);
    assert_eq!(m.memory_usage(), Some(50000));
    m.on_memtable_shrink(45000);
    assert_eq!(reservation(&m).charged_bytes, 5000);
    assert_eq!(m.memory_usage(), Some(5000));
}

#[test]
fn cache_usable_with_unlimited_manager() {
    let cache = Cache::new_lru_cache(8192);
    let mut m = WriteBufferManager::new_with_cache(0, &cache, false);
    assert!(!m.enabled());
    assert_eq!(m.memory_usage(), None);
    m.on_memtable_grow(4000);
    // Usage is not reported while no ceiling is enforced, but the cache is
    // still charged for it.
    assert_eq!(reservation(&m).charged_bytes, 4000);
}
