use engine_core::types::key::{Key, PublicKey};
use engine_core::types::vec_map::{Duplicate, VecMap, VecSet};

fn names(entries: &[(&str, u8)]) -> VecMap<String, Key> {
    let mut map = VecMap::new();
    for (name, byte) in entries {
        map.insert(name.to_string(), Key::Hash([*byte; 32]));
    }
    map
}

#[test]
fn a_new_map_is_empty() {
    let map: VecMap<String, Key> = VecMap::new();
    assert_eq!(map.len(), 0);
    assert!(map.is_empty());
    assert!(map.get(&"a".to_string()).is_none());
}

#[test]
fn insert_binds_and_rebinding_replaces() {
    let mut map = names(&[("a", 1), ("b", 2)]);
    assert_eq!(map.len(), 2);
    assert_eq!(map.get(&"a".to_string()), Some(&Key::Hash([1u8; 32])));
    assert_eq!(map.get(&"b".to_string()), Some(&Key::Hash([2u8; 32])));
    map.insert("a".to_string(), Key::Hash([9u8; 32]));
    assert_eq!(map.len(), 2);
    assert_eq!(map.get(&"a".to_string()), Some(&Key::Hash([9u8; 32])));
    assert!(map.contains_key(&"b".to_string()));
    assert!(!map.contains_key(&"c".to_string()));
}

#[test]
fn a_rebound_key_keeps_its_place() {
    let mut map = names(&[("a", 1), ("b", 2), ("c", 3)]);
    map.insert("b".to_string(), Key::Hash([7u8; 32]));
    assert_eq!(map.key_at(0), "a");
    assert_eq!(map.key_at(1), "b");
    assert_eq!(map.key_at(2), "c");
    assert_eq!(*map.value_at(1), Key::Hash([7u8; 32]));
    assert_eq!(map.position(&"c".to_string()), Some(2));
    assert_eq!(map.position(&"z".to_string()), None);
}

#[test]
fn extend_from_prefers_the_other_map() {
    let mut map = names(&[("a", 1), ("b", 2)]);
    let other = names(&[("b", 20), ("c", 30)]);
    map.extend_from(&other);
    assert_eq!(map.len(), 3);
    assert_eq!(map.get(&"a".to_string()), Some(&Key::Hash([1u8; 32])));
    assert_eq!(map.get(&"b".to_string()), Some(&Key::Hash([20u8; 32])));
    assert_eq!(map.get(&"c".to_string()), Some(&Key::Hash([30u8; 32])));
}

#[test]
fn a_duplicate_holds_the_same_entries() {
    let map = names(&[("a", 1), ("b", 2)]);
    let copy = map.duplicate();
    assert_eq!(copy.len(), 2);
    assert_eq!(copy.get(&"a".to_string()), Some(&Key::Hash([1u8; 32])));
    assert_eq!(copy.key_at(1), "b");
}

#[test]
fn a_set_holds_each_member_once() {
    let mut set: VecSet<PublicKey> = VecSet::new();
    assert!(set.is_empty());
    set.insert(PublicKey::new([1u8; 32]));
    set.insert(PublicKey::new([2u8; 32]));
    set.insert(PublicKey::new([1u8; 32]));
    assert_eq!(set.len(), 2);
    assert!(!set.is_empty());
    assert!(set.contains(&PublicKey::new([2u8; 32])));
    assert!(!set.contains(&PublicKey::new([3u8; 32])));
    assert_eq!(*set.member_at(0), PublicKey::new([1u8; 32]));
    assert_eq!(set.duplicate().len(), 2);
}
