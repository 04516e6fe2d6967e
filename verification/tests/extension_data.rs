use std::collections::HashMap;

use openentry_ext::extension_data::{load_entry, store_entry};

#[test]
fn load_gives_back_the_last_store() {
    let mut entries: HashMap<u32, usize> = HashMap::new();
    assert_eq!(load_entry(&entries, 4), None);
    assert_eq!(store_entry(&mut entries, 4, 0x1000), None);
    assert_eq!(load_entry(&entries, 4), Some(0x1000));
    assert_eq!(store_entry(&mut entries, 4, 0x2000), Some(0x1000));
    assert_eq!(load_entry(&entries, 4), Some(0x2000));
}

#[test]
fn store_leaves_other_extensions_alone() {
    let mut entries: HashMap<u32, usize> = HashMap::new();
    store_entry(&mut entries, 1, 10);
    store_entry(&mut entries, 2, 20);
    assert_eq!(store_entry(&mut entries, 1, 11), Some(10));
    assert_eq!(load_entry(&entries, 2), Some(20));
    assert_eq!(load_entry(&entries, 1), Some(11));
    assert_eq!(load_entry(&entries, 3), None);
    assert_eq!(entries.len(), 2);
}
