use snowflake::pool::IdManager;

#[test]
fn allocate_returns_lowest_free_id() {
    let mut p = IdManager::new();
    assert_eq!(p.allocate(), Some(0));
    assert_eq!(p.allocate(), Some(1));
    assert_eq!(p.allocate(), Some(2));
    p.release(1);
    assert_eq!(p.allocate(), Some(1));
    assert_eq!(p.allocate(), Some(3));
}

#[test]
fn outstanding_allocations_never_repeat() {
    let mut p = IdManager::new();
    let a = p.allocate().unwrap();
    let b = p.allocate().unwrap();
    assert_ne!(a, b);
    let mut seen = vec![false; 32];
    seen[a as usize] = true;
    seen[b as usize] = true;
    while let Some(id) = p.allocate() {
        assert!(!seen[id as usize], "id {} handed out twice", id);
        seen[id as usize] = true;
    }
}

#[test]
fn conservation_free_plus_leased_is_n() {
    let mut p = IdManager::new();
    let count = |p: &IdManager| {
        let snap = p.usage_snapshot();
        let leased = snap.iter().filter(|(_, used)| *used).count();
        let free = snap.iter().filter(|(_, used)| !*used).count();
        (free, leased, snap.len())
    };
    assert_eq!(count(&p), (32, 0, 32));
    p.allocate();
    p.allocate();
    assert_eq!(count(&p), (30, 2, 32));
    p.release(0);
    assert_eq!(count(&p), (31, 1, 32));
    p.release(0);
    assert_eq!(count(&p), (31, 1, 32));
}

#[test]
fn release_is_idempotent_and_creates_no_duplicate() {
    let mut p = IdManager::new_sized(4);
    assert_eq!(p.allocate(), Some(0));
    assert_eq!(p.allocate(), Some(1));
    p.release(0);
    p.release(0);
    assert_eq!(p.allocate(), Some(0));
    // 0 was released twice but exists only once: the next id is 2, not 0.
    assert_eq!(p.allocate(), Some(2));
    assert_eq!(p.allocate(), Some(3));
    assert_eq!(p.allocate(), None);
}

#[test]
fn release_out_of_range_is_a_no_op() {
    let mut p = IdManager::new_sized(2);
    p.release(99);
    assert_eq!(p.allocate(), Some(0));
    assert_eq!(p.allocate(), Some(1));
    assert_eq!(p.allocate(), None);
}

#[test]
fn usage_snapshot_is_ordered_and_complete() {
    let mut p = IdManager::new_sized(5);
    p.allocate();
    p.allocate();
    p.release(0);
    let snap = p.usage_snapshot();
    assert_eq!(snap, vec![(0, false), (1, true), (2, false), (3, false), (4, false)]);
}

#[test]
fn exhausted_pool_refuses_and_recovers() {
    let mut p = IdManager::new_sized(1);
    assert_eq!(p.allocate(), Some(0));
    assert_eq!(p.allocate(), None);
    p.release(0);
    assert_eq!(p.allocate(), Some(0));
}
