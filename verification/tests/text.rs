use tsproxy_operator::string_map::StringMap;
use tsproxy_operator::text::{decimal_text, trim_leading_slashes};

#[test]
fn decimal_numbers() {
    assert_eq!(decimal_text(0), "0");
    assert_eq!(decimal_text(7), "7");
    assert_eq!(decimal_text(80), "80");
    assert_eq!(decimal_text(65535), "65535");
    assert_eq!(decimal_text(-7), "-7");
    assert_eq!(decimal_text(i32::MAX), "2147483647");
    assert_eq!(decimal_text(i32::MIN), "-2147483648");
}

#[test]
fn leading_slashes_go() {
    assert_eq!(trim_leading_slashes("/health"), "health");
    assert_eq!(trim_leading_slashes("///health/live/"), "health/live/");
    assert_eq!(trim_leading_slashes("health"), "health");
    assert_eq!(trim_leading_slashes("///"), "");
    assert_eq!(trim_leading_slashes(""), "");
    assert_eq!(trim_leading_slashes("/é/"), "é/");
}

#[test]
fn trimming_twice_changes_nothing() {
    let once = trim_leading_slashes("//a//b");
    assert_eq!(trim_leading_slashes(once), once);
    assert!(!once.starts_with('/'));
}

#[test]
fn string_map_keeps_one_value_per_key() {
    let mut map = StringMap::new();
    map.insert("a".to_string(), "1".to_string());
    map.insert("b".to_string(), "2".to_string());
    map.insert("a".to_string(), "3".to_string());
    let mut entries = map.clone().into_entries();
    entries.sort();
    assert_eq!(
        entries,
        vec![
            ("a".to_string(), "3".to_string()),
            ("b".to_string(), "2".to_string()),
        ]
    );
    assert_eq!(map.into_entries().len(), 2);
}

#[test]
fn singleton_map() {
    let map = StringMap::singleton("app".to_string(), "proxy".to_string());
    assert_eq!(map.into_entries(), vec![("app".to_string(), "proxy".to_string())]);
    assert!(StringMap::new().into_entries().is_empty());
}

#[test]
fn maps_are_equal_in_any_order() {
    let map = |entries: &[(&str, &str)]| {
        let mut map = StringMap::new();
        for (key, value) in entries {
            map.insert(key.to_string(), value.to_string());
        }
        map
    };
    assert!(map(&[("a", "1"), ("b", "2")]) == map(&[("b", "2"), ("a", "1")]));
    assert!(map(&[("a", "1")]) != map(&[("a", "2")]));
    assert!(map(&[("a", "1")]) != map(&[("a", "1"), ("b", "2")]));
    assert!(map(&[("a", "1"), ("b", "2")]) != map(&[("a", "1")]));
    assert!(map(&[]) == StringMap::new());
}
