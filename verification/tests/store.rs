use unite::store::Store;
use unite::Address;

fn key(tag: u8) -> Address {
    let mut bytes = [0u8; 32];
    bytes[31] = tag;
    Address::new(bytes)
}

#[test]
fn a_new_store_keeps_nothing() {
    let store: Store<u64> = Store::new();
    assert_eq!(store.get(&key(1)), None);
    assert!(!store.contains(&key(1)));
}

#[test]
fn what_is_kept_is_found_again_at_its_address_only() {
    let mut store: Store<u64> = Store::new();
    store.insert(key(1), 10);
    store.insert(key(2), 20);
    assert_eq!(store.get(&key(1)), Some(&10));
    assert_eq!(store.get(&key(2)), Some(&20));
    assert_eq!(store.get(&key(3)), None);
    assert!(store.contains(&key(2)));
}

#[test]
fn keeping_at_an_address_again_replaces_what_was_there() {
    let mut store: Store<&str> = Store::new();
    store.insert(key(1), "first");
    store.insert(key(2), "other");
    store.insert(key(1), "second");
    assert_eq!(store.get(&key(1)), Some(&"second"));
    assert_eq!(store.get(&key(2)), Some(&"other"));
}
