use caudex::metadata::LibraryItemMetadata;
use caudex::metadata_batch::{
    apply_patch_preview, deterministic_run_id, executed_outcome, missing_item_outcome,
    normalize_item_ids, normalize_patch, plan_execute_item, preview_outcome, run_payload,
    summarize_batch, BatchMetadataPatchInput, ExecuteStep,
};
use caudex::metadata_collections::{
    assignment_result, group_taxonomy_rows, normalize_labels, require_item_exists,
    taxonomy_query, TaxonomyKind,
};

fn patch(title: Option<&str>, tags: Option<Vec<&str>>) -> BatchMetadataPatchInput {
    BatchMetadataPatchInput {
        title: title.map(|t| t.to_string()),
        authors: None,
        language: None,
        published_at: None,
        tags: tags.map(|v| v.into_iter().map(|s| s.to_string()).collect()),
        collections: None,
    }
}

fn item(id: i64, title: &str) -> LibraryItemMetadata {
    LibraryItemMetadata {
        id,
        title: title.to_string(),
        authors: vec!["Alice".to_string()],
        language: Some("en".to_string()),
        published_at: Some("2024-01-01".to_string()),
        format: "epub".to_string(),
        source_path: format!("/tmp/{id}.epub"),
        tags: vec![],
        collections: vec![],
    }
}

#[test]
fn run_id_is_deterministic_and_depends_on_payload() {
    let p = normalize_patch(&patch(Some("Batch Title"), None)).unwrap();
    let ids = normalize_item_ids(&vec![2, 1, 2, -5]).unwrap();
    assert_eq!(ids, vec![1, 2]);
    let first = deterministic_run_id("preview", &ids, &p);
    let second = deterministic_run_id("preview", &ids, &p);
    assert_eq!(first, second);
    assert!(first.starts_with("batch-"));
    assert_eq!(first.len(), "batch-".len() + 16);
    assert_ne!(first, deterministic_run_id("execute", &ids, &p));
    assert_eq!(
        run_payload("preview", &ids, &p),
        "{\"item_ids\":[1,2],\"mode\":\"preview\",\"patch\":{\"authors\":null,\"collections\":null,\"language\":null,\"published_at\":null,\"tags\":null,\"title\":\"Batch Title\"}}"
    );
}

#[test]
fn batch_inputs_are_validated() {
    assert_eq!(
        normalize_item_ids(&vec![0, -1]),
        Err("Batch update requires at least one valid item id.".to_string())
    );
    assert_eq!(
        normalize_patch(&patch(None, None)).err(),
        Some("Batch patch must include at least one field.".to_string())
    );
    assert_eq!(
        normalize_patch(&patch(Some("  "), None)).err(),
        Some("Title is required.".to_string())
    );
    let p = normalize_patch(&patch(None, Some(vec!["urgent", "Urgent", " "]))).unwrap();
    assert_eq!(p.tags, Some(vec!["urgent".to_string()]));
}

#[test]
fn preview_reports_updates_and_no_ops() {
    let p = normalize_patch(&patch(Some("Batch Updated"), None)).unwrap();
    let (after, changed) = apply_patch_preview(&item(1, "Title A"), &p);
    assert!(changed);
    assert_eq!(after.title, "Batch Updated");
    assert_eq!(after.authors, vec!["Alice".to_string()]);

    let updated = preview_outcome(1, item(1, "Title A"), &p);
    assert_eq!(updated.status, "updated");
    let skipped = preview_outcome(2, item(2, "Batch Updated"), &p);
    assert_eq!(skipped.status, "skipped");
    assert_eq!(skipped.reason.as_deref(), Some("No effective change for this item."));

    let missing = missing_item_outcome(999_999, "Library item not found.".to_string());
    assert_eq!(missing.status, "failed");

    let run = summarize_batch("batch-x".to_string(), "execute", 3, vec![updated, skipped, missing]);
    assert_eq!(run.status, "partial_success");
    assert_eq!((run.updated_count, run.skipped_count, run.failed_count), (1, 1, 1));
    assert_eq!(run.updated_count + run.skipped_count + run.failed_count, run.total_targets);
    let none = summarize_batch("batch-y".to_string(), "preview", 0, vec![]);
    assert_eq!(none.status, "no_changes");
}

#[test]
fn labels_are_trimmed_deduplicated_and_bounded() {
    assert_eq!(
        normalize_labels(&["urgent".to_string(), "Urgent".to_string(), " later ".to_string(), "".to_string()], "Tag"),
        Ok(vec!["urgent".to_string(), "later".to_string()])
    );
    assert_eq!(
        normalize_labels(&["x".repeat(65)], "Collection"),
        Err("Collection labels must be 64 characters or fewer.".to_string())
    );
    assert!(normalize_labels(&["x".repeat(64)], "Tag").is_ok());
    assert_eq!(require_item_exists(0), Err("Library item not found.".to_string()));
    assert_eq!(require_item_exists(1), Ok(()));
}

#[test]
fn taxonomy_rows_are_grouped_per_item() {
    let grouped = group_taxonomy_rows(
        &vec![1, 2, 3],
        &vec![(2, "b".to_string()), (1, "a".to_string()), (2, "c".to_string())],
    );
    assert_eq!(grouped, vec![vec!["a".to_string()], vec!["b".to_string(), "c".to_string()], vec![]]);
}

#[test]
fn execution_plans_updates_only_for_changes() {
    let p = normalize_patch(&patch(Some("Batch Updated"), Some(vec!["urgent"]))).unwrap();
    match plan_execute_item(1, item(1, "Title A"), &p) {
        ExecuteStep::Update { current, input } => {
            assert_eq!(current.title, "Title A");
            assert_eq!(input.item_id, 1);
            assert_eq!(input.title, "Batch Updated");
            assert_eq!(input.tags, Some(vec!["urgent".to_string()]));
            assert_eq!(input.collections, None);
            let failed = executed_outcome(1, current, Err("Library item not found.".to_string()));
            assert_eq!(failed.status, "failed");
            assert!(failed.retry_eligible);
        }
        ExecuteStep::Skip(_) => panic!("title changes"),
    }
    let mut same = item(2, "Batch Updated");
    same.tags = vec!["urgent".to_string()];
    match plan_execute_item(2, same, &p) {
        ExecuteStep::Skip(outcome) => assert_eq!(outcome.status, "skipped"),
        ExecuteStep::Update { .. } => panic!("nothing changes"),
    }
}

#[test]
fn taxonomy_query_has_one_placeholder_per_item() {
    assert_eq!(
        taxonomy_query(TaxonomyKind::Tags, 3),
        "SELECT rel.library_item_id AS library_item_id, names.name AS name FROM item_tags rel JOIN tags names ON names.id = rel.tag_id WHERE rel.library_item_id IN (?, ?, ?) ORDER BY names.name COLLATE NOCASE ASC"
    );
    assert!(taxonomy_query(TaxonomyKind::Collections, 1)
        .contains("FROM item_collections rel JOIN collections names ON names.id = rel.collection_id WHERE rel.library_item_id IN (?) ORDER"));
    let result = assignment_result(4, vec!["a".to_string()], vec![]);
    assert_eq!((result.item_id, result.tags.len(), result.collections.len()), (4, 1, 0));
}
