use niko::slots::SlotList;

#[test]
fn insert_then_get_returns_value() {
    let mut table: SlotList<u32> = SlotList::new();
    let k = table.insert(7);
    assert_eq!(table.get(k), Some(&7));
}

#[test]
fn removed_handle_stays_absent_after_reuse() {
    // Handle safety: a removed key resolves to absent even after a later
    // insert reuses the same slot index.
    let mut table: SlotList<&str> = SlotList::new();
    let k1 = table.insert("first");
    assert_eq!(table.remove(k1), Some("first"));
    assert_eq!(table.get(k1), None);

    let k2 = table.insert("second");
    assert_eq!(table.get(k1), None);
    assert_eq!(table.get_mut(k1), None);
    assert_eq!(table.get(k2), Some(&"second"));
    assert!(k1 != k2);
}

#[test]
fn generations_keep_cycled_keys_distinct() {
    // Generation monotonicity: cycling one slot hands out a fresh key
    // each time, and every earlier key stays stale.
    let mut table: SlotList<u8> = SlotList::new();
    let mut old_keys = Vec::new();
    let mut k = table.insert(0);
    for round in 1..5u8 {
        assert_eq!(table.remove(k), Some(round - 1));
        old_keys.push(k);
        k = table.insert(round);
        for old in &old_keys {
            assert!(*old != k);
            assert_eq!(table.get(*old), None);
        }
        assert_eq!(table.get(k), Some(&round));
    }
}

#[test]
fn remove_with_stale_key_is_noop() {
    let mut table: SlotList<i64> = SlotList::new();
    let k = table.insert(-3);
    assert_eq!(table.remove(k), Some(-3));
    assert_eq!(table.remove(k), None);
    let k2 = table.insert(11);
    assert_eq!(table.remove(k), None);
    assert_eq!(table.get(k2), Some(&11));
}

#[test]
fn get_mut_updates_in_place() {
    let mut table: SlotList<u32> = SlotList::new();
    let k = table.insert(1);
    if let Some(v) = table.get_mut(k) {
        *v = 42;
    } else {
        panic!("expected a live handle");
    }
    assert_eq!(table.get(k), Some(&42));
}

#[test]
fn out_of_range_key_is_absent_not_a_panic() {
    let mut table: SlotList<u32> = SlotList::new();
    let k = table.insert(5);
    let mut other: SlotList<u32> = SlotList::new();
    // a key issued by one table, used against an empty one
    assert_eq!(other.get(k), None);
    assert_eq!(other.get_mut(k), None);
    assert_eq!(other.remove(k), None);
    assert_eq!(table.get(k), Some(&5));
}
