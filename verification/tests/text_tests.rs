use tauri_overlay::text::{
    compare_str, decimal_string, sanitize_replay_text, str_eq, to_ascii_lowercase, to_ascii_uppercase, trim,
};
use tauri_overlay::text_map::{equal_text_maps, TextMap, TextSet};

#[test]
fn sanitize_removes_tags_controls_and_extra_spaces() {
    assert_eq!(sanitize_replay_text("  <b>Hi</b>  there\u{7}!"), "Hi there!");
}

#[test]
fn sanitize_decodes_entities() {
    assert_eq!(sanitize_replay_text("Tom &amp; Jerry &lt;3 &quot;x&quot; &#39;y&apos;"), "Tom & Jerry <3 \"x\" 'y'");
}

#[test]
fn sanitize_of_plain_text_is_the_text() {
    assert_eq!(sanitize_replay_text("Raynor"), "Raynor");
    assert_eq!(sanitize_replay_text(""), "");
}

#[test]
fn trim_and_case() {
    assert_eq!(trim("\t abc \n"), "abc");
    assert_eq!(to_ascii_lowercase("AbC-Ü"), "abc-Ü");
    assert_eq!(to_ascii_uppercase("na eu"), "NA EU");
}

#[test]
fn comparisons() {
    assert!(str_eq("abc", "abc"));
    assert!(!str_eq("abc", "abd"));
    assert_eq!(compare_str("abc", "abd"), -1);
    assert_eq!(compare_str("abd", "abc"), 1);
    assert_eq!(compare_str("ab", "abc"), -1);
    assert_eq!(compare_str("abc", "abc"), 0);
}

#[test]
fn decimals() {
    assert_eq!(decimal_string(0), "0");
    assert_eq!(decimal_string(1234567890), "1234567890");
    assert_eq!(decimal_string(u64::MAX), "18446744073709551615");
}

#[test]
fn text_map_keeps_keys_sorted_and_unique() {
    let mut m: TextMap<u32> = TextMap::new();
    assert_eq!(m.insert("b".to_string(), 2), None);
    assert_eq!(m.insert("a".to_string(), 1), None);
    assert_eq!(m.insert("c".to_string(), 3), None);
    assert_eq!(m.insert("a".to_string(), 10), Some(1));
    assert_eq!(m.len(), 3);
    assert_eq!(m.key_at(0), "a");
    assert_eq!(m.key_at(1), "b");
    assert_eq!(m.key_at(2), "c");
    assert_eq!(m.get("a"), Some(&10));
    assert!(m.contains_key("b"));
    assert_eq!(m.remove("b"), Some(2));
    assert_eq!(m.remove("b"), None);
    assert_eq!(m.get("b"), None);
    assert_eq!(m.len(), 2);
    m.clear();
    assert_eq!(m.len(), 0);
}

#[test]
fn text_map_from_pairs_later_pairs_win() {
    let m = TextMap::from_pairs(vec![("x".to_string(), 1u32), ("y".to_string(), 2), ("x".to_string(), 3)]);
    assert_eq!(m.len(), 2);
    assert_eq!(m.get("x"), Some(&3));
    assert_eq!(m.get("y"), Some(&2));
}

#[test]
fn text_set_holds_each_item_once() {
    let mut s = TextSet::new();
    assert!(s.insert("b".to_string()));
    assert!(s.insert("a".to_string()));
    assert!(!s.insert("b".to_string()));
    assert_eq!(s.len(), 2);
    assert_eq!(s.item_at(0), "a");
    assert!(s.contains("b"));
    assert!(!s.contains("c"));
}

#[test]
fn text_maps_compare_by_content() {
    let a = TextMap::from_pairs(vec![("k".to_string(), "v".to_string())]);
    let b = TextMap::from_pairs(vec![("k".to_string(), "v".to_string())]);
    let c = TextMap::from_pairs(vec![("k".to_string(), "w".to_string())]);
    assert!(equal_text_maps(&a, &b));
    assert!(!equal_text_maps(&a, &c));
}
