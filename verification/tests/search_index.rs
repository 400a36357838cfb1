use caudex::search_index::{
    claim_query, claimed_units, document_for, health_result, health_without_library, hit_item_id,
    index_root_from_library_path, needs_repair, next_success_status, normalize_batch_size,
    plan_search, recovery_note, retry_limit, summarize_pass, IndexInspection, IndexableItemRow,
    WorkUnitRow,
};

#[test]
fn batch_size_defaults_to_fifty_within_bounds() {
    assert_eq!(normalize_batch_size(None), 50);
    assert_eq!(normalize_batch_size(Some(0)), 1);
    assert_eq!(normalize_batch_size(Some(10)), 10);
    assert_eq!(normalize_batch_size(Some(200)), 200);
    assert_eq!(normalize_batch_size(Some(5000)), 200);
}

#[test]
fn retry_limit_is_kept_between_one_and_five_hundred() {
    assert_eq!(retry_limit(None), None);
    assert_eq!(retry_limit(Some(0)), Some(1));
    assert_eq!(retry_limit(Some(42)), Some(42));
    assert_eq!(retry_limit(Some(9999)), Some(500));
}

#[test]
fn claim_query_includes_failed_units_only_when_asked() {
    assert!(claim_query(true).contains("'failed'"));
    assert!(!claim_query(false).contains("'failed'"));
    assert!(claim_query(false).contains("('queued', 'retry')"));
}

#[test]
fn first_run_succeeds_and_later_runs_recover() {
    assert_eq!(next_success_status("queued"), "success");
    assert_eq!(next_success_status("retry"), "recovered");
    assert_eq!(next_success_status("failed"), "recovered");
}

#[test]
fn only_units_whose_claim_changed_one_row_are_claimed() {
    let units = vec![
        WorkUnitRow { id: 1, library_item_id: 10, status: "queued".to_string() },
        WorkUnitRow { id: 2, library_item_id: 11, status: "retry".to_string() },
        WorkUnitRow { id: 3, library_item_id: 12, status: "queued".to_string() },
    ];
    let claimed = claimed_units(&units, &vec![1, 0, 1]);
    assert_eq!(claimed.iter().map(|u| u.id).collect::<Vec<_>>(), vec![1, 3]);
    assert_eq!(claimed[1].library_item_id, 12);
    assert_eq!(claimed[1].status, "queued");
    assert!(claimed_units(&units, &vec![0, 0, 0]).is_empty());
}

#[test]
fn pass_counts_add_up() {
    let result = summarize_pass(&vec![true, false, true, true]);
    assert_eq!(result.processed_count, 4);
    assert_eq!(result.success_count, 3);
    assert_eq!(result.failed_count, 1);
    let empty = summarize_pass(&vec![]);
    assert_eq!((empty.processed_count, empty.success_count, empty.failed_count), (0, 0, 0));
}

#[test]
fn document_text_joins_fields_with_spaces() {
    let doc = document_for(&IndexableItemRow {
        id: 5,
        title: "Dune".to_string(),
        authors: "[\"Frank Herbert\",\"Brian\"]".to_string(),
        language: Some("en".to_string()),
        published_at: None,
        source_path: "/b/dune.epub".to_string(),
    });
    assert_eq!(doc.library_item_id, 5);
    assert_eq!(doc.authors, "Frank Herbert Brian");
    assert_eq!(doc.content, "Dune Frank Herbert Brian en  /b/dune.epub");
    assert_eq!(doc.language.as_deref(), Some("en"));
    assert_eq!(doc.published_at, None);

    let bad_authors = document_for(&IndexableItemRow {
        id: 6,
        title: "T".to_string(),
        authors: "oops".to_string(),
        language: None,
        published_at: Some("2020-01-01".to_string()),
        source_path: "p".to_string(),
    });
    assert_eq!(bad_authors.authors, "");
    assert_eq!(bad_authors.content, "T   2020-01-01 p");
}

#[test]
fn index_root_lives_under_the_library() {
    assert_eq!(index_root_from_library_path("/data/lib", '/'), "/data/lib/.caudex/search-index-v1");
    assert_eq!(index_root_from_library_path("/data/lib/", '/'), "/data/lib/.caudex/search-index-v1");
    assert_eq!(index_root_from_library_path("", '/'), ".caudex/search-index-v1");
    assert_eq!(index_root_from_library_path("D:\\lib", '\\'), "D:\\lib\\.caudex\\search-index-v1");
    let expected = std::path::PathBuf::from("/srv/books").join(".caudex").join("search-index-v1");
    assert_eq!(
        index_root_from_library_path("/srv/books", std::path::MAIN_SEPARATOR),
        expected.to_string_lossy()
    );
}

#[test]
fn blank_search_is_not_run_and_limit_is_at_least_one() {
    assert!(plan_search("   ", 10).is_none());
    let plan = plan_search("  history metadata ", 0).expect("query should run");
    assert_eq!(plan.query, "history metadata");
    assert_eq!(plan.limit, 1);
    assert_eq!(plan_search("x", 20).unwrap().limit, 20);
}

#[test]
fn health_diagnostics() {
    assert_eq!(recovery_note(0), "");
    assert_eq!(recovery_note(3), "Recovered 3 interrupted running work unit(s).");

    let skipped = health_without_library(0);
    assert!(!skipped.repair_performed);
    assert_eq!(skipped.diagnostic, "No library configured; index health check skipped.");
    let skipped = health_without_library(2);
    assert_eq!(
        skipped.diagnostic,
        "Recovered 2 interrupted running work unit(s). No library configured; index health check skipped."
    );

    let healthy = IndexInspection { root_was_file: false, open_failed: false, was_missing: false, meta_present: true };
    assert!(!needs_repair(&healthy));
    let r = health_result(0, "/x".to_string(), &healthy, 9);
    assert!(!r.repair_performed);
    assert_eq!(r.rebuild_queued_count, 0);
    assert_eq!(r.diagnostic, "Search index healthy.");

    let missing = IndexInspection { was_missing: true, ..healthy };
    let r = health_result(1, "/x".to_string(), &missing, 4);
    assert!(r.repair_performed);
    assert_eq!(r.rebuild_queued_count, 4);
    assert_eq!(
        r.diagnostic,
        "Recovered 1 interrupted running work unit(s). Search index initialized because it was missing."
    );

    let corrupt = IndexInspection { open_failed: true, ..healthy };
    let r = health_result(0, "/x".to_string(), &corrupt, 2);
    assert_eq!(r.diagnostic, "Search index repaired after corruption detection.");
    assert_eq!(r.index_root, "/x");

    let file_root = IndexInspection { root_was_file: true, ..healthy };
    let r = health_result(0, "/x".to_string(), &file_root, 2);
    assert!(r.repair_performed);
    assert_eq!(r.diagnostic, "Search index healthy.");
}

#[test]
fn search_hits_need_a_stored_item_id() {
    assert_eq!(hit_item_id(Some(42)), Ok(42));
    assert_eq!(hit_item_id(None), Err("Search document missing library_item_id.".to_string()));
}
