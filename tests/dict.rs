use pipewire_core::dict::{Flags, ForeignDict};

/// A dict of `num_items` pairs `("K<n>", "V<n>")`, `n` in `0..num_items`.
fn make_dict(num_items: u32) -> ForeignDict {
    let mut items = Vec::new();
    for i in 0..num_items {
        items.push((format!("K{}", i).into_bytes(), format!("V{}", i).into_bytes()));
    }
    ForeignDict::from_items(items, Flags::empty().bits())
}

#[test]
fn test_empty_dict() {
    let dict = ForeignDict::from_items(Vec::new(), Flags::empty().bits());
    let iter = dict.iter_cstr();

    assert_eq!(0, dict.len());

    iter.iter().for_each(|_| panic!("Iterated over non-existing item"));
}

#[test]
fn test_iter_cstr() {
    let dict = make_dict(2);

    let mut iter = dict.iter_cstr().into_iter();
    assert_eq!((&b"K0"[..], &b"V0"[..]), iter.next().unwrap());
    assert_eq!((&b"K1"[..], &b"V1"[..]), iter.next().unwrap());
    assert_eq!(None, iter.next());
}

#[test]
fn test_iterators() {
    let dict = make_dict(2);

    let mut iter = dict.iter().into_iter();
    assert_eq!(("K0", "V0"), iter.next().unwrap());
    assert_eq!(("K1", "V1"), iter.next().unwrap());
    assert_eq!(None, iter.next());

    let mut key_iter = dict.keys().into_iter();
    assert_eq!("K0", key_iter.next().unwrap());
    assert_eq!("K1", key_iter.next().unwrap());
    assert_eq!(None, key_iter.next());

    let mut val_iter = dict.values().into_iter();
    assert_eq!("V0", val_iter.next().unwrap());
    assert_eq!("V1", val_iter.next().unwrap());
    assert_eq!(None, val_iter.next());
}

#[test]
fn test_get() {
    let dict = make_dict(1);

    assert_eq!(Some("V0"), dict.get("K0"));
}

#[test]
fn test_debug() {
    let dict = make_dict(1);

    assert_eq!(r#"{"K0": "V0"}"#, &dict.debug_string())
}

#[test]
fn single_pair_lookup_and_debug() {
    let dict = make_dict(1);
    assert_eq!(Some("V0"), dict.get("K0"));
    assert_eq!(None, dict.get("missing"));
    assert_eq!("{\"K0\": \"V0\"}", dict.debug_string());
}

#[test]
fn raw_count_matches_len() {
    for n in [0u32, 1, 2, 5, 17] {
        let dict = make_dict(n);
        assert_eq!(n as usize, dict.iter_cstr().len());
        assert_eq!(n as usize, dict.len());
        assert_eq!(n == 0, dict.is_empty());
    }
}

#[test]
fn text_view_matches_raw_view_when_all_text() {
    let dict = make_dict(4);
    let raw: Vec<(String, String)> = dict
        .iter_cstr()
        .into_iter()
        .map(|(k, v)| (String::from_utf8(k.to_vec()).unwrap(), String::from_utf8(v.to_vec()).unwrap()))
        .collect();
    let text: Vec<(String, String)> =
        dict.iter().into_iter().map(|(k, v)| (k.to_string(), v.to_string())).collect();
    assert_eq!(raw, text);
}

#[test]
fn get_returns_first_of_duplicate_keys() {
    let items = vec![
        (b"a".to_vec(), b"first".to_vec()),
        (b"b".to_vec(), b"other".to_vec()),
        (b"a".to_vec(), b"second".to_vec()),
    ];
    let dict = ForeignDict::from_items(items, 0);
    assert_eq!(Some("first"), dict.get("a"));
    assert_eq!(Some("other"), dict.get("b"));
}

#[test]
fn invalid_utf8_entries_are_skipped() {
    let items = vec![
        (b"good".to_vec(), b"one".to_vec()),
        (vec![0xff, 0x41], b"bad key".to_vec()),
        (b"bad value".to_vec(), vec![0xc3]),
        ("cl\u{e9}".as_bytes().to_vec(), "\u{2713}".as_bytes().to_vec()),
    ];
    let dict = ForeignDict::from_items(items, 0);
    assert_eq!(4, dict.len());
    assert_eq!(4, dict.iter_cstr().len());
    assert_eq!(vec![("good", "one"), ("cl\u{e9}", "\u{2713}")], dict.iter());
    assert_eq!(vec!["good", "bad value", "cl\u{e9}"], dict.keys());
    assert_eq!(vec!["one", "bad key", "\u{2713}"], dict.values());
    assert_eq!(None, dict.get("bad value"));
    assert_eq!(Some("\u{2713}"), dict.get("cl\u{e9}"));
}

#[test]
fn debug_escapes_bytes() {
    let items = vec![
        (b"a\"b".to_vec(), vec![0x09, 0xff]),
        (b"k".to_vec(), b"v\\".to_vec()),
    ];
    let dict = ForeignDict::from_items(items, 0);
    assert_eq!(r#"{"a\"b": "\t\xff", "k": "v\\"}"#, dict.debug_string());
    let empty = ForeignDict::from_items(Vec::new(), 0);
    assert_eq!("{}", empty.debug_string());
}

#[test]
fn flags_keep_only_known_bits() {
    let dict = ForeignDict::from_items(Vec::new(), 0b111);
    assert_eq!(1, dict.flags().bits());
    assert!(dict.flags().contains(Flags::sorted()));
    let plain = ForeignDict::from_items(Vec::new(), 0b110);
    assert_eq!(0, plain.flags().bits());
    assert!(!plain.flags().contains(Flags::sorted()));
    assert_eq!(Flags::empty(), plain.flags());
}
