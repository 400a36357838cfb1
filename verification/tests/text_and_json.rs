use caudex::json::parse_string_list_or_empty;
use caudex::metadata::{normalize_update, UpdateLibraryItemMetadataInput};
use caudex::order::{positive_sorted_unique, sort_strings, str_le};
use caudex::text::{join_strings, parse_unsigned_chars, to_ascii_lower, trim_str, u64_to_string};

#[test]
fn string_lists_round_trip_through_json() {
    let items = vec!["Alice".to_string(), "Bob \"B\"".to_string(), "Ünï".to_string(), "Tab\there\u{1}".to_string()];
    let update = normalize_update(&UpdateLibraryItemMetadataInput {
        item_id: 1,
        title: "T".to_string(),
        authors: items.clone(),
        language: None,
        published_at: None,
        tags: None,
        collections: None,
    })
    .ok()
    .unwrap();
    let text = update.authors_json;
    assert_eq!(text, "[\"Alice\",\"Bob \\\"B\\\"\",\"Ünï\",\"Tab\\there\\u0001\"]");
    assert_eq!(parse_string_list_or_empty(&text), items);
    assert!(parse_string_list_or_empty("{\"a\":1}").is_empty());
    assert!(parse_string_list_or_empty("[1,2]").is_empty());
}

#[test]
fn text_helpers() {
    assert_eq!(trim_str("\u{a0} a b \t"), "a b");
    assert_eq!(to_ascii_lower("AbÇ"), "abÇ");
    assert_eq!(u64_to_string(0), "0");
    assert_eq!(u64_to_string(18446744073709551615), "18446744073709551615");
    assert_eq!(join_strings(&vec!["a".to_string(), "b".to_string()], " | "), "a | b");
    assert_eq!(join_strings(&vec![], ", "), "");
    assert_eq!(parse_unsigned_chars(&['+', '4', '2'], 100), Some(42));
    assert_eq!(parse_unsigned_chars(&['1', '0', '1'], 100), None);
    assert_eq!(parse_unsigned_chars(&['+'], 100), None);
}

#[test]
fn ordering_helpers() {
    assert!(str_le("abc", "abd"));
    assert!(str_le("ab", "abc"));
    assert!(!str_le("b", "abc"));
    assert_eq!(
        sort_strings(vec!["b".to_string(), "a".to_string(), "c".to_string(), "a".to_string()]),
        vec!["a".to_string(), "a".to_string(), "b".to_string(), "c".to_string()]
    );
    assert_eq!(positive_sorted_unique(&vec![3, -1, 3, 0, 2]), vec![2, 3]);
}
