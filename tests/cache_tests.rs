use vsmoddb::cache::CacheSlot;

#[test]
fn consecutive_reads_fetch_once() {
    let mut slot: CacheSlot<u32> = CacheSlot::new(true);
    assert!(slot.needs_fetch());
    assert!(slot.cached().is_none());
    let first = slot.store_fetched(vec![1, 2, 3]);
    assert_eq!(first, vec![1, 2, 3]);
    assert!(!slot.needs_fetch());
    assert_eq!(slot.cached(), Some(vec![1, 2, 3]));
    assert_eq!(slot.cached(), Some(vec![1, 2, 3]));
}

#[test]
fn refresh_replaces_snapshot() {
    let mut slot: CacheSlot<u32> = CacheSlot::new(true);
    slot.store_fetched(vec![1]);
    slot.refresh(vec![4, 5]);
    assert_eq!(slot.cached(), Some(vec![4, 5]));
}

#[test]
fn clear_then_one_fetch() {
    let mut slot: CacheSlot<u32> = CacheSlot::new(true);
    slot.store_fetched(vec![1]);
    slot.clear();
    assert!(slot.needs_fetch());
    slot.store_fetched(vec![2]);
    assert!(!slot.needs_fetch());
    assert_eq!(slot.cached(), Some(vec![2]));
}

#[test]
fn disabled_slot_never_serves() {
    let mut slot: CacheSlot<u32> = CacheSlot::new(false);
    assert!(!slot.is_enabled());
    assert_eq!(slot.store_fetched(vec![1]), vec![1]);
    assert!(slot.needs_fetch());
    slot.refresh(vec![2]);
    assert!(slot.cached().is_none());
    slot.clear();
    assert!(slot.needs_fetch());
}
