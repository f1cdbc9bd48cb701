use avbridge::decoder::{PtsMap, RING_CAPACITY};

#[test]
fn get_on_unset_id_returns_none() {
    let map = PtsMap::default();
    assert_eq!(map.get(5), None);
    assert_eq!(map.get(0), None);
    assert_eq!(map.get(-1), None);
}

#[test]
fn sixteen_distinct_ids_all_retrievable() {
    let mut map = PtsMap::default();
    for i in 0..RING_CAPACITY {
        map.set(100 + i as i64, 10 * i);
    }
    for i in 0..RING_CAPACITY {
        assert_eq!(map.get(100 + i as i64), Some(10 * i));
    }
}

#[test]
fn seventeenth_insert_overwrites_the_oldest() {
    let mut map = PtsMap::default();
    for i in 0..(RING_CAPACITY + 1) {
        map.set(100 + i as i64, 10 * i);
    }
    // The first id was evicted.
    assert_eq!(map.get(100), None);
    // The sixteen most recent ids are all still there.
    for i in 1..(RING_CAPACITY + 1) {
        assert_eq!(map.get(100 + i as i64), Some(10 * i));
    }
}

#[test]
fn collision_later_write_wins() {
    let mut map = PtsMap::default();
    map.set(7, 1);
    map.set(8, 5);
    map.set(7, 2);
    assert_eq!(map.get(7), Some(2));
    assert_eq!(map.get(8), Some(5));
}
