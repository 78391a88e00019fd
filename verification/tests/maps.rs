use maple_config::maps::{PathMap, StringMap};
use maple_config::paths::{path_is_absolute, AbsPathBuf};
use maple_config::text::{chars_of, same_text, text_precedes};

#[test]
fn string_map_keeps_one_value_for_a_key() {
    let mut map: StringMap<u64> = StringMap::new();
    assert!(map.is_empty());
    assert_eq!(map.len(), 0);
    assert_eq!(map.get("files"), None);
    assert_eq!(map.insert("files".to_string(), 100), None);
    assert_eq!(map.insert("grep".to_string(), 200), None);
    assert_eq!(map.insert("files".to_string(), 150), Some(100));
    assert_eq!(map.len(), 2);
    assert!(!map.is_empty());
    assert_eq!(map.get("files"), Some(&150));
    assert_eq!(map.get("grep"), Some(&200));
    assert_eq!(map.get("file"), None);
    assert_eq!(map.get("filess"), None);
    assert!(map.contains_key("grep"));
    assert!(!map.contains_key("*"));
}

#[test]
fn string_map_orders_its_keys() {
    let mut map: StringMap<u64> = StringMap::new();
    for (key, value) in [("m", 1), ("b", 2), ("zz", 3), ("", 4), ("ba", 5), ("é", 6), ("B", 7), ("*", 8)] {
        map.insert(key.to_string(), value);
    }
    let keys: Vec<&str> = (0..map.len()).map(|i| map.key_at(i)).collect();
    assert_eq!(keys, vec!["", "*", "B", "b", "ba", "m", "zz", "é"]);
    let values: Vec<u64> = (0..map.len()).map(|i| *map.value_at(i)).collect();
    assert_eq!(values, vec![4, 8, 7, 2, 5, 1, 3, 6]);
    let mut sorted = keys.clone();
    sorted.sort();
    assert_eq!(keys, sorted);
}

#[test]
fn string_maps_with_the_same_entries_are_equal() {
    let mut one: StringMap<u64> = StringMap::new();
    one.insert("a".to_string(), 1);
    one.insert("b".to_string(), 2);
    one.insert("c".to_string(), 3);
    let mut other: StringMap<u64> = StringMap::new();
    other.insert("c".to_string(), 0);
    other.insert("b".to_string(), 2);
    other.insert("a".to_string(), 1);
    assert_ne!(one, other);
    other.insert("c".to_string(), 3);
    assert_eq!(one, other);
}

#[test]
fn path_map_is_keyed_by_absolute_paths() {
    let mut map: PathMap<u64> = PathMap::new();
    assert!(map.is_empty());
    let home = AbsPathBuf::try_new("/home".to_string()).expect("absolute");
    let root = AbsPathBuf::try_new("/".to_string()).expect("absolute");
    assert_eq!(map.insert(home.clone(), 1), None);
    assert_eq!(map.insert(root.clone(), 2), None);
    assert_eq!(map.insert(home.clone(), 3), Some(1));
    assert_eq!(map.len(), 2);
    assert_eq!(map.get(&home), Some(&3));
    assert_eq!(map.get(&root), Some(&2));
    assert!(map.contains_key(&root));
    assert!(!map.contains_key(&AbsPathBuf::try_new("/home/".to_string()).expect("absolute")));
    assert_eq!(map.key_at(0), "/");
    assert_eq!(map.key_at(1), "/home");
    assert_eq!(*map.value_at(1), 3);
    assert_eq!(map.as_string_map().get("/home"), Some(&3));
}

#[test]
fn absolute_paths_start_at_the_root() {
    for path in ["/", "/a", "/a/b/", "//", "/ ", "/\u{e9}"] {
        assert!(path_is_absolute(path), "{:?}", path);
        let made = AbsPathBuf::try_new(path.to_string()).expect("absolute");
        assert_eq!(made.as_str(), path);
        assert_eq!(made.clone().into_string(), path);
    }
    for path in ["", "a", "a/b", "./a", "../a", "~", "~/a", " /a", "C:\\a", "\\a"] {
        assert!(!path_is_absolute(path), "{:?}", path);
        assert_eq!(AbsPathBuf::try_new(path.to_string()), Err(path.to_string()));
    }
}

#[test]
fn texts_are_ordered_as_std_orders_strings() {
    let texts = ["", "a", "A", "ab", "abc", "abd", "b", "é", "e", "-", "*", "zz", "z", "\u{10ffff}", "\u{d7ff}"];
    for a in texts {
        for b in texts {
            assert_eq!(text_precedes(a, b), a < b, "{:?} {:?}", a, b);
            assert_eq!(same_text(a, b), a == b, "{:?} {:?}", a, b);
        }
    }
}

#[test]
fn chars_of_a_string_are_its_characters() {
    assert_eq!(chars_of(""), Vec::<char>::new());
    assert_eq!(chars_of("a-é"), vec!['a', '-', 'é']);
}
