use luminance::slots::SlotPool;

#[test]
fn fresh_pool_counts_up() {
    let mut p = SlotPool::new();
    assert_eq!(p.allocate(), 0);
    assert_eq!(p.allocate(), 1);
    assert_eq!(p.allocate(), 2);
    assert_eq!(p.high_water_mark(), 3);
    assert_eq!(p.free_count(), 0);
}

#[test]
fn live_slots_are_distinct() {
    let mut p = SlotPool::new();
    let mut got = Vec::new();
    for _ in 0..10 {
        got.push(p.allocate());
    }
    p.release(got[3]);
    p.release(got[7]);
    got.remove(7);
    got.remove(3);
    for _ in 0..4 {
        got.push(p.allocate());
    }
    let mut sorted = got.clone();
    sorted.sort();
    sorted.dedup();
    assert_eq!(sorted.len(), got.len());
    assert_eq!(p.high_water_mark(), 12);
}

#[test]
fn released_slot_comes_back_first() {
    let mut p = SlotPool::new();
    let a = p.allocate();
    let _b = p.allocate();
    p.release(a);
    assert!(!p.is_live(a));
    assert_eq!(p.allocate(), a);
    assert!(p.is_live(a));
    assert_eq!(p.high_water_mark(), 2);
}

#[test]
fn last_released_is_reused_first() {
    let mut p = SlotPool::new();
    for _ in 0..4 {
        p.allocate();
    }
    p.release(0);
    p.release(2);
    assert_eq!(p.allocate(), 2);
    assert_eq!(p.allocate(), 0);
    assert_eq!(p.allocate(), 4);
}

#[test]
fn no_leak_after_scope() {
    let mut p = SlotPool::new();
    let n = 5;
    let mut held = Vec::new();
    for _ in 0..n {
        held.push(p.allocate());
    }
    for s in [3u32, 0, 4, 1, 2] {
        p.release(held[s as usize]);
    }
    assert_eq!(p.free_count(), n);
    assert_eq!(p.high_water_mark() as usize, n);
    for s in 0..5u32 {
        assert!(!p.is_live(s));
    }
}

#[test]
fn is_live_outside_issued_range() {
    let mut p = SlotPool::new();
    assert!(!p.is_live(0));
    p.allocate();
    assert!(p.is_live(0));
    assert!(!p.is_live(1));
    assert!(!p.is_live(u32::MAX));
}

#[test]
fn can_allocate_on_fresh_pool() {
    let p = SlotPool::new();
    assert!(p.can_allocate());
}
