use write_buffer_budget::Cache;
use write_buffer_budget::CacheCostReservation;
use write_buffer_budget::MemoryAccountant;
use write_buffer_budget::StallController;
use write_buffer_budget::StallState;

#[test]
fn accountant_adds_and_subtracts() {
    let mut a = MemoryAccountant::new();
    assert_eq!(a.current_usage(), 0);
    a.record_allocation(120);
    a.record_allocation(30);
    assert_eq!(a.current_usage(), 150);
    assert!(!a.record_free(50));
    assert_eq!(a.current_usage(), 100);
    assert!(!a.record_free(100));
    assert_eq!(a.current_usage(), 0);
    assert_eq!(a.underflow_events, 0);
}

#[test]
fn accountant_clamps_underflowing_free() {
    let mut a = MemoryAccountant::new();
    a.record_allocation(10);
    assert!(a.record_free(11));
    assert_eq!(a.current_usage(), 0);
    assert_eq!(a.underflow_events, 1);
}

#[test]
fn controller_stalls_only_past_limit() {
    let mut c = StallController::new(true);
    assert_eq!(c.state, StallState::Flowing);
    assert!(!c.on_usage_increased(100, 100));
    assert_eq!(c.state, StallState::Flowing);
    assert!(c.on_usage_increased(100, 101));
    assert_eq!(c.state, StallState::Stalled);
}

#[test]
fn controller_respects_policy_and_limit() {
    let mut without_stall = StallController::new(false);
    assert!(!without_stall.on_usage_increased(100, 100000));
    let mut unlimited = StallController::new(true);
    assert!(!unlimited.on_usage_increased(0, 100000));
}

#[test]
fn controller_wakes_on_qualifying_decrease() {
    let mut c = StallController::new(true);
    assert!(c.on_usage_increased(100, 150));
    assert!(!c.on_usage_decreased(100, 120));
    assert_eq!(c.state, StallState::Stalled);
    assert!(c.on_usage_decreased(100, 100));
    assert_eq!(c.state, StallState::Flowing);
    assert!(!c.on_usage_decreased(100, 50));
}

#[test]
fn reservation_resizes_one_entry() {
    let cache = Cache::new_lru_cache(1000);
    let mut r = CacheCostReservation::new(&cache);
    assert_eq!(r.charged_bytes, 0);
    assert_eq!(r.entry_count, 1);
    r.resize_to(400);
    assert_eq!(r.charged_bytes, 400);
    r.resize_to(2500);
    assert_eq!(r.charged_bytes, 1000);
    r.resize_to(0);
    assert_eq!(r.charged_bytes, 0);
    assert_eq!(r.entry_count, 1);
}
