use godot_egui::slots::SlotPool;

#[test]
fn shrinking_from_five_to_two_frees_three_last_first() {
    let mut pool = SlotPool::new();
    let freed = pool.resize(5, vec![11, 12, 13, 14, 15]);
    assert!(freed.is_empty());
    let freed = pool.resize(2, Vec::new());
    assert_eq!(freed, vec![15, 14, 13]);
    assert_eq!(pool.len(), 2);
    assert_eq!(pool.slot(0), 11);
    assert_eq!(pool.slot(1), 12);
}

#[test]
fn growing_appends_fresh_slots() {
    let mut pool = SlotPool::new();
    pool.resize(1, vec![3]);
    assert_eq!(pool.slots_missing(4), 3);
    let freed = pool.resize(4, vec![4, 5, 6]);
    assert!(freed.is_empty());
    assert_eq!((0..4).map(|i| pool.slot(i)).collect::<Vec<_>>(), vec![3, 4, 5, 6]);
    assert_eq!(pool.slots_missing(2), 0);
}

#[test]
fn pool_size_follows_latest_count() {
    let mut pool = SlotPool::new();
    let mut next = 100u64;
    for &count in &[3usize, 7, 2, 0, 4] {
        let fresh: Vec<u64> = (0..pool.slots_missing(count)).map(|_| { next += 1; next }).collect();
        pool.resize(count, fresh);
        assert_eq!(pool.len(), count);
    }
}

#[test]
fn release_all_empties_last_first() {
    let mut pool = SlotPool::new();
    pool.resize(3, vec![1, 2, 3]);
    assert_eq!(pool.release_all(), vec![3, 2, 1]);
    assert_eq!(pool.len(), 0);
}
