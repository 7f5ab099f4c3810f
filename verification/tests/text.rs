use headmaster::sort::{sort, sorted_unique};
use headmaster::text::{
    decimal_i32, decimal_u64, fit, join2, join3, join4, join5, parse_u64, same_text, text_before,
};
use headmaster::textmap::TextMap;

#[test]
fn joining_keeps_the_order_of_the_parts() {
    assert_eq!(join2("a", "b"), "ab");
    assert_eq!(join3("a", "", "c"), "ac");
    assert_eq!(join4("a", "b", "c", "d"), "abcd");
    assert_eq!(join5("a", "b", "c", "d", "é"), "abcdé");
}

#[test]
fn numbers_are_written_in_decimal() {
    assert_eq!(decimal_u64(0), "0");
    assert_eq!(decimal_u64(10), "10");
    assert_eq!(decimal_u64(u64::MAX), u64::MAX.to_string());
    assert_eq!(decimal_i32(-1), "-1");
    assert_eq!(decimal_i32(i32::MIN), i32::MIN.to_string());
    assert_eq!(decimal_i32(41641), "41641");
}

#[test]
fn numbers_are_read_as_the_standard_library_reads_them() {
    for text in [
        "0", "1", "007", "+5", "+", "", "-1", "-0", " 1", "1 ", "a", "12a", "18446744073709551615",
        "18446744073709551616", "99999999999999999999999", "+18446744073709551615", "++1", "٣",
    ] {
        assert_eq!(parse_u64(text), text.parse::<u64>().ok(), "{text:?}");
    }
}

#[test]
fn decimal_numbers_are_read_back() {
    for n in [0u64, 9, 10, 99, 100, 12345, u64::MAX] {
        assert_eq!(parse_u64(&decimal_u64(n)), Some(n));
    }
}

#[test]
fn texts_are_cut_between_characters() {
    assert_eq!(fit("abc", 3), "abc");
    assert_eq!(fit("abcd", 3), "abc");
    assert_eq!(fit("aéb", 2), "a");
    assert_eq!(fit("aéb", 3), "aé");
    assert_eq!(fit("é", 1), "");
    assert_eq!(fit("", 0), "");
}

#[test]
fn texts_are_ordered_as_the_standard_library_orders_them() {
    let texts = ["", "a", "ab", "b", "B", "é", "z", "😀", "\u{ffff}", "a\u{0}"];
    for a in texts {
        for b in texts {
            assert_eq!(text_before(a, b), a < b, "{a:?} {b:?}");
            assert_eq!(same_text(a, b), a == b, "{a:?} {b:?}");
        }
    }
}

#[test]
fn sorting_orders_texts() {
    let items = vec!["b".to_string(), "a".to_string(), "c".to_string(), "a".to_string()];
    assert_eq!(sort(items), vec!["a", "a", "b", "c"]);
    let none: Vec<String> = Vec::new();
    assert!(sort(none).is_empty());
}

#[test]
fn repeated_texts_are_kept_once() {
    let items = vec!["tag:b".to_string(), "tag:a".to_string(), "tag:b".to_string()];
    assert_eq!(sorted_unique(items), vec!["tag:a", "tag:b"]);
    let none: Vec<String> = Vec::new();
    assert!(sorted_unique(none).is_empty());
}

#[test]
fn map_entries_are_replaced_in_place() {
    let mut map: TextMap<u8> = TextMap::new();
    assert!(map.get("a").is_none());
    map.insert("a".to_string(), 1);
    map.insert("b".to_string(), 2);
    map.insert("a".to_string(), 3);
    assert_eq!(map.get("a"), Some(&3));
    assert_eq!(map.get("b"), Some(&2));
    assert!(!map.contains_key("c"));
    assert_eq!(map.entries(), &vec![("a".to_string(), 3), ("b".to_string(), 2)]);
    assert_eq!(map.clone(), map);
    assert_eq!(TextMap::with("k", 7u8).get("k"), Some(&7));
}
