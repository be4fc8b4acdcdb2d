//! Maps from octet strings.

use bytes::Bytes;
use pg_proto::octet_map::OctetMap;

fn name(text: &'static [u8]) -> Bytes {
    Bytes::from_static(text)
}

#[test]
fn entries_are_ordered_by_name_and_replaced() {
    let mut map = OctetMap::new();
    assert!(map.is_empty());
    assert_eq!(map.insert(name(b"b"), 2), None);
    assert_eq!(map.insert(name(b"a"), 1), None);
    assert_eq!(map.insert(name(b"ab"), 3), None);
    assert_eq!(map.insert(name(b"a"), 4), Some(1));
    assert_eq!(map.len(), 3);
    let names: Vec<&[u8]> = (0..map.len()).map(|at| &map.key_at(at)[..]).collect();
    assert_eq!(names, vec![&b"a"[..], b"ab", b"b"]);
    assert_eq!(map.value_at(0), &4);
    assert_eq!(map.get(b"ab"), Some(&3));
    assert_eq!(map.get(b"x"), None);
    assert!(map.contains_key(b"b"));
    assert_eq!(map.remove(b"b"), Some(2));
    assert_eq!(map.remove(b"b"), None);
    assert_eq!(map.len(), 2);
}

#[test]
fn texts_are_compared_entry_by_entry() {
    let mut one = OctetMap::new();
    let mut other = OctetMap::new();
    assert!(one.same_texts(&other));
    one.insert(name(b"k"), name(b"v"));
    assert!(!one.same_texts(&other));
    other.insert(name(b"k"), name(b"w"));
    assert!(!one.same_texts(&other));
    other.insert(name(b"k"), name(b"v"));
    assert!(one.same_texts(&other));
}
