use gravity_sdk::block_map::{BlockKey, BlockMap};

#[test]
fn keys_of_different_epochs_are_different_places() {
    let mut map: BlockMap<u8> = BlockMap::new();
    map.insert(BlockKey::new(1, 2), 12);
    map.insert(BlockKey::new(2, 1), 21);
    map.insert(BlockKey::new(0, u64::MAX), 7);
    map.insert(BlockKey::new(u64::MAX, 0), 8);
    assert_eq!(map.len(), 4);
    assert_eq!(map.get(BlockKey::new(1, 2)), Some(&12));
    assert_eq!(map.get(BlockKey::new(2, 1)), Some(&21));
    assert_eq!(map.get(BlockKey::new(0, u64::MAX)), Some(&7));
    assert_eq!(map.get(BlockKey::new(u64::MAX, 0)), Some(&8));
    assert_eq!(map.get(BlockKey::new(1, 1)), None);
}

#[test]
fn retaining_numbers_looks_at_numbers_alone() {
    let mut map: BlockMap<u8> = BlockMap::new();
    map.insert(BlockKey::new(1, 5), 1);
    map.insert(BlockKey::new(2, 6), 2);
    map.insert(BlockKey::new(9, 7), 3);
    map.retain_numbers(6, u64::MAX);
    assert_eq!(map.len(), 2);
    assert_eq!(map.get(BlockKey::new(1, 5)), None);
    map.retain_numbers(0, 6);
    assert_eq!(map.len(), 1);
    assert_eq!(map.get(BlockKey::new(2, 6)), Some(&2));
}
