use caudex::metadata::LibraryItemMetadata;
use caudex::metadata_conflicts::{
    candidate_update, conflict_source, normalize_rationale, normalize_resolution,
    normalize_status_filter, plan_conflict_detection, require_pending, require_single_resolution,
    resolved_status, check_resolvable, plan_resolution, MetadataConflictCandidateInput,
    MetadataConflictRow, ResolutionStep,
};

fn current() -> LibraryItemMetadata {
    LibraryItemMetadata {
        id: 11,
        title: "Current Title".to_string(),
        authors: vec!["Alice".to_string()],
        language: Some("en".to_string()),
        published_at: Some("2024-01-01".to_string()),
        format: "epub".to_string(),
        source_path: "/tmp/c.epub".to_string(),
        tags: vec![],
        collections: vec![],
    }
}

#[test]
fn differing_fields_become_conflicts() {
    let conflicts = plan_conflict_detection(
        &current(),
        &MetadataConflictCandidateInput {
            title: Some(" Candidate Title ".to_string()),
            authors: Some(vec!["Alice".to_string()]),
            language: Some("fr".to_string()),
            published_at: None,
        },
    )
    .expect("candidate is valid");
    let fields: Vec<&str> = conflicts.iter().map(|c| c.field_name).collect();
    assert_eq!(fields, vec!["title", "language"]);
    assert_eq!(conflicts[0].current_value, "Current Title");
    assert_eq!(conflicts[0].candidate_value, "Candidate Title");
    assert_eq!(conflicts[1].candidate_value, "fr");
}

#[test]
fn author_conflicts_compare_normalised_lists_as_json() {
    let conflicts = plan_conflict_detection(
        &current(),
        &MetadataConflictCandidateInput {
            title: None,
            authors: Some(vec!["Bob".to_string(), " bob ".to_string()]),
            language: None,
            published_at: None,
        },
    )
    .unwrap();
    assert_eq!(conflicts.len(), 1);
    assert_eq!(conflicts[0].field_name, "authors");
    assert_eq!(conflicts[0].current_value, "[\"Alice\"]");
    assert_eq!(conflicts[0].candidate_value, "[\"Bob\"]");
}

#[test]
fn a_candidate_equal_to_the_item_raises_nothing() {
    let c = current();
    let conflicts = plan_conflict_detection(
        &c,
        &MetadataConflictCandidateInput {
            title: Some(c.title.clone()),
            authors: Some(c.authors.clone()),
            language: c.language.clone(),
            published_at: c.published_at.clone(),
        },
    )
    .unwrap();
    assert!(conflicts.is_empty());
}

#[test]
fn invalid_candidates_and_filters_are_refused() {
    let err = plan_conflict_detection(
        &current(),
        &MetadataConflictCandidateInput { title: None, authors: None, language: Some("french".to_string()), published_at: None },
    )
    .err()
    .unwrap();
    assert_eq!(err, "Language must be an ISO tag like 'en' or 'en-US'.");
    assert_eq!(normalize_status_filter(&Some(" Pending ".to_string())), Ok(Some("pending".to_string())));
    assert_eq!(normalize_status_filter(&Some("".to_string())), Ok(None));
    assert_eq!(normalize_status_filter(&Some("done".to_string())), Err("Invalid conflict status filter.".to_string()));
    assert_eq!(normalize_resolution(" USE_CANDIDATE "), Ok("use_candidate".to_string()));
    assert_eq!(
        normalize_resolution("maybe"),
        Err("Resolution must be 'keep_current' or 'use_candidate'.".to_string())
    );
}

#[test]
fn resolution_steps() {
    assert_eq!(require_pending("pending"), Ok(()));
    assert_eq!(require_pending("resolved_keep_current"), Err("Only pending conflicts can be resolved.".to_string()));
    assert_eq!(resolved_status("use_candidate"), "resolved_use_candidate");
    assert_eq!(resolved_status("keep_current"), "resolved_keep_current");
    assert_eq!(normalize_rationale(&Some("  because ".to_string())).as_deref(), Some("because"));
    assert_eq!(normalize_rationale(&Some("   ".to_string())), None);
    assert_eq!(require_single_resolution(0), Err("Metadata conflict is no longer pending.".to_string()));
    assert_eq!(conflict_source(&None), "manual");
    assert_eq!(conflict_source(&Some(" google_books ".to_string())), "google_books");
}

#[test]
fn using_a_candidate_changes_one_field() {
    let update = candidate_update(current(), "title", "New").unwrap();
    assert_eq!(update.title, "New");
    assert_eq!(update.authors, vec!["Alice".to_string()]);
    let update = candidate_update(current(), "authors", "[\"X\",\"Y\"]").unwrap();
    assert_eq!(update.authors, vec!["X".to_string(), "Y".to_string()]);
    assert_eq!(update.title, "Current Title");
    let update = candidate_update(current(), "language", "").unwrap();
    assert_eq!(update.language, None);
    assert_eq!(
        candidate_update(current(), "authors", "not json").err(),
        Some("Unable to apply metadata conflict resolution.".to_string())
    );
    assert_eq!(
        candidate_update(current(), "format", "pdf").err(),
        Some("Unsupported conflict field.".to_string())
    );
}

fn conflict_row(status: &str, field_name: &str, candidate_value: &str) -> MetadataConflictRow {
    MetadataConflictRow {
        id: 5,
        library_item_id: 11,
        field_name: field_name.to_string(),
        current_value: "Current Title".to_string(),
        candidate_value: candidate_value.to_string(),
        candidate_source: "manual".to_string(),
        status: status.to_string(),
        rationale: None,
        created_at: "2024-01-01T00:00:00Z".to_string(),
        resolved_at: None,
    }
}

#[test]
fn only_an_existing_pending_conflict_is_resolvable() {
    assert_eq!(check_resolvable(None).err(), Some("Metadata conflict not found.".to_string()));
    assert_eq!(
        check_resolvable(Some(conflict_row("resolved_use_candidate", "title", "New"))).err(),
        Some("Only pending conflicts can be resolved.".to_string())
    );
    let row = check_resolvable(Some(conflict_row("pending", "title", "New"))).ok().unwrap();
    assert_eq!(row.id, 5);
    assert_eq!(row.field_name, "title");
}

#[test]
fn keeping_the_current_value_leaves_the_item_alone() {
    let row = conflict_row("pending", "title", "New");
    match plan_resolution("keep_current", current(), &row) {
        Ok(ResolutionStep::Keep(item)) => {
            assert_eq!(item.title, "Current Title");
            assert_eq!(item.authors, vec!["Alice".to_string()]);
            assert_eq!(item.language.as_deref(), Some("en"));
        }
        _ => panic!("keeping the current value must not update the item"),
    }
    match plan_resolution("use_candidate", current(), &row) {
        Ok(ResolutionStep::Update(update)) => {
            assert_eq!(update.item_id, 11);
            assert_eq!(update.title, "New");
            assert_eq!(update.tags, None);
        }
        _ => panic!("using the candidate must update the item"),
    }
    let bad = conflict_row("pending", "format", "pdf");
    assert_eq!(
        plan_resolution("use_candidate", current(), &bad).err(),
        Some("Unsupported conflict field.".to_string())
    );
}
