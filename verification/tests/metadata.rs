use caudex::metadata::{
    is_leap_year, is_valid_iso_date, is_valid_language_tag, map_item_row, normalize_authors,
    normalize_language, normalize_list_filters, normalize_optional_trimmed, normalize_pagination,
    normalize_published_at, normalize_title, normalize_update, plan_list_query, require_updated,
    LibraryItemRow, ListLibraryItemsInput, UpdateLibraryItemMetadataInput,
};

fn update(title: &str, authors: &[&str], language: Option<&str>, published_at: Option<&str>) -> UpdateLibraryItemMetadataInput {
    UpdateLibraryItemMetadataInput {
        item_id: 1,
        title: title.to_string(),
        authors: authors.iter().map(|a| a.to_string()).collect(),
        language: language.map(|l| l.to_string()),
        published_at: published_at.map(|p| p.to_string()),
        tags: None,
        collections: None,
    }
}

#[test]
fn update_normalizes_title_and_authors() {
    let normalized = normalize_update(&update("  New Title  ", &[" Alice ", "", "alice", "Bob"], Some("fr"), Some("2024-12-31")))
        .expect("update should succeed");
    assert_eq!(normalized.title, "New Title");
    assert_eq!(normalized.authors, vec!["Alice".to_string(), "Bob".to_string()]);
    assert_eq!(normalized.authors_json, "[\"Alice\",\"Bob\"]");
    assert_eq!(normalized.language.as_deref(), Some("fr"));
    assert_eq!(normalized.published_at.as_deref(), Some("2024-12-31"));
}

#[test]
fn update_rejects_invalid_values_with_their_messages() {
    let title_err = normalize_update(&update("   ", &["Alice"], Some("en"), Some("2024-01-01"))).err().unwrap();
    assert!(title_err.contains("Title is required"));
    let lang_err = normalize_update(&update("Valid", &["Alice"], Some("english"), Some("2024-01-01"))).err().unwrap();
    assert!(lang_err.contains("Language must be"));
    let date_err = normalize_update(&update("Valid", &["Alice"], Some("en"), Some("2024-31-12"))).err().unwrap();
    assert!(date_err.contains("Published date must be"));
    let authors_err = normalize_update(&update("Valid", &[" ", ""], None, None)).err().unwrap();
    assert_eq!(authors_err, "At least one author is required.");
}

#[test]
fn normalizing_twice_changes_nothing() {
    let once = normalize_update(&update(" T ", &["b", " B", "c "], Some(" en-US "), Some(" 2020-02-29 "))).unwrap();
    let twice = normalize_update(&UpdateLibraryItemMetadataInput {
        item_id: 1,
        title: once.title.clone(),
        authors: once.authors.clone(),
        language: once.language.clone(),
        published_at: once.published_at.clone(),
        tags: None,
        collections: None,
    })
    .unwrap();
    assert_eq!(twice.title, once.title);
    assert_eq!(twice.authors, once.authors);
    assert_eq!(twice.language, once.language);
    assert_eq!(twice.published_at, once.published_at);
}

#[test]
fn field_rules() {
    assert_eq!(normalize_title(" x "), Ok("x".to_string()));
    assert_eq!(normalize_title(""), Err("Title is required.".to_string()));
    assert_eq!(
        normalize_authors(&["a".to_string(), "A ".to_string()]),
        Ok(vec!["a".to_string()])
    );
    assert!(is_valid_language_tag("en"));
    assert!(is_valid_language_tag("en-US"));
    assert!(!is_valid_language_tag("e"));
    assert!(!is_valid_language_tag("english"));
    assert_eq!(normalize_language(&Some("  ".to_string())), Ok(None));
    assert!(is_leap_year(2000));
    assert!(is_leap_year(2024));
    assert!(!is_leap_year(1900));
    assert!(is_valid_iso_date("2024-02-29"));
    assert!(!is_valid_iso_date("2023-02-29"));
    assert!(!is_valid_iso_date("2024-04-31"));
    assert!(!is_valid_iso_date("0000-01-01"));
    assert_eq!(normalize_published_at(&Some(" 2024-01-31 ".to_string())), Ok(Some("2024-01-31".to_string())));
    assert_eq!(normalize_optional_trimmed(&Some("  ".to_string())), None);
    assert_eq!(normalize_optional_trimmed(&Some(" a ".to_string())).as_deref(), Some("a"));
}

#[test]
fn pagination_defaults_and_bounds() {
    assert_eq!(normalize_pagination(None, None), (1, 50));
    assert_eq!(normalize_pagination(Some(0), Some(0)), (1, 1));
    assert_eq!(normalize_pagination(Some(3), Some(500)), (3, 200));
}

fn list_input() -> ListLibraryItemsInput {
    ListLibraryItemsInput {
        page: None,
        page_size: None,
        author: None,
        language: None,
        published_from: None,
        published_to: None,
        tag: None,
        collection: None,
        sort_by: None,
        sort_direction: None,
    }
}

#[test]
fn list_filters_are_checked_and_planned() {
    let bad_range = ListLibraryItemsInput {
        published_from: Some("2024-05-01".to_string()),
        published_to: Some("2024-01-01".to_string()),
        ..list_input()
    };
    assert_eq!(normalize_list_filters(&bad_range).err(), Some("Published date range is invalid.".to_string()));

    let filtered = ListLibraryItemsInput {
        author: Some(" Alice ".to_string()),
        language: Some("fr".to_string()),
        ..list_input()
    };
    let filters = normalize_list_filters(&filtered).expect("filters should be valid");
    assert_eq!(filters.author.as_deref(), Some("Alice"));
    let plan = plan_list_query(&filters, 2, 10);
    assert_eq!(plan.limit, 10);
    assert_eq!(plan.offset, 10);
    assert!(plan.rows_sql.contains("LIMIT"));
    assert_eq!(plan.filter_binds.len(), 2);
}

#[test]
fn rows_map_to_items() {
    let item = map_item_row(
        LibraryItemRow {
            id: 4,
            title: "T".to_string(),
            authors: "[\"A\",\"B\"]".to_string(),
            language: None,
            published_at: Some("2020-01-01".to_string()),
            format: "pdf".to_string(),
            source_path: "/t.pdf".to_string(),
        },
        vec!["x".to_string()],
        vec![],
    );
    assert_eq!(item.authors, vec!["A".to_string(), "B".to_string()]);
    assert_eq!(item.tags, vec!["x".to_string()]);
    assert_eq!(require_updated(0), Err("Library item not found.".to_string()));
    assert_eq!(require_updated(1), Ok(()));
}
