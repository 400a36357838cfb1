use caudex::metadata::LibraryItemMetadata;
use caudex::metadata_enrichment::{
    backoff_duration_with_jitter, extract_isbn, isbn_hint, merged_update, require_unapplied,
    CandidateFields, EnrichmentAction, EnrichmentRun, LookupKind, ProposalApplyRow, RunStatus,
};

type Reply = Result<Option<CandidateFields>, String>;

struct FakeProvider {
    name: &'static str,
    isbn_responses: Vec<Reply>,
    title_responses: Vec<Reply>,
}

impl FakeProvider {
    fn new(name: &'static str, isbn_responses: Vec<Reply>, title_responses: Vec<Reply>) -> Self {
        Self { name, isbn_responses, title_responses }
    }

    fn pop(responses: &mut Vec<Reply>) -> Reply {
        if responses.is_empty() {
            return Ok(None);
        }
        responses.remove(0)
    }
}

/// What a run ends with, as the caller would record it.
struct Outcome {
    status: String,
    diagnostic: Option<String>,
    proposals: Vec<(String, Option<String>, CandidateFields)>,
    lookups: Vec<(usize, LookupKind, Option<u8>)>,
}

fn drive(providers: &mut Vec<FakeProvider>, isbn: Option<String>) -> Outcome {
    let names = providers.iter().map(|p| p.name.to_string()).collect();
    let (mut run, mut action) = EnrichmentRun::start(names, isbn);
    let mut lookups = Vec::new();
    loop {
        match action {
            EnrichmentAction::Lookup { provider, kind, backoff_attempt } => {
                lookups.push((provider, kind, backoff_attempt));
                let p = &mut providers[provider];
                let reply = match kind {
                    LookupKind::Isbn => FakeProvider::pop(&mut p.isbn_responses),
                    LookupKind::TitleAuthor => FakeProvider::pop(&mut p.title_responses),
                };
                action = run.on_reply(reply);
            }
            EnrichmentAction::Propose { provider, candidate, proposal_diagnostic, status, diagnostic } => {
                return Outcome {
                    status: status.as_str().to_string(),
                    diagnostic,
                    proposals: vec![(providers[provider].name.to_string(), proposal_diagnostic, candidate)],
                    lookups,
                };
            }
            EnrichmentAction::Fail { diagnostic } => {
                return Outcome {
                    status: RunStatus::Failed.as_str().to_string(),
                    diagnostic: Some(diagnostic),
                    proposals: vec![],
                    lookups,
                };
            }
        }
    }
}

fn candidate() -> CandidateFields {
    CandidateFields {
        title: Some("Enriched Title".to_string()),
        authors: vec!["Alice".to_string(), "Bob".to_string()],
        language: Some("fr".to_string()),
        published_at: Some("2024-12-31".to_string()),
    }
}

fn item_hint(title: &str) -> Option<String> {
    isbn_hint(title, &format!("/tmp/{title}.epub"))
}

#[test]
fn fallback_provider_used_when_primary_fails() {
    let mut providers = vec![
        FakeProvider::new(
            "google_books",
            vec![Err("timeout".to_string()), Err("timeout".to_string()), Err("timeout".to_string())],
            vec![],
        ),
        FakeProvider::new("open_library", vec![Ok(Some(candidate()))], vec![]),
    ];
    let result = drive(&mut providers, item_hint("book-9781234567890"));

    assert_eq!(result.status, "degraded");
    assert_eq!(result.proposals.len(), 1);
    assert_eq!(result.proposals[0].0, "open_library");
    assert!(result.diagnostic.as_deref().unwrap_or_default().contains("google_books"));
}

#[test]
fn retry_exhaustion_marks_run_failed() {
    let mut providers = vec![
        FakeProvider::new(
            "google_books",
            vec![Err("timeout".to_string()), Err("timeout".to_string()), Err("timeout".to_string())],
            vec![],
        ),
        FakeProvider::new("open_library", vec![Ok(None)], vec![]),
    ];
    let result = drive(&mut providers, item_hint("book-9781234567890"));

    assert_eq!(result.status, "failed");
    assert_eq!(result.proposals.len(), 0);
}

#[test]
fn failed_enrichment_for_one_item_does_not_block_another_item() {
    let mut failed_providers = vec![
        FakeProvider::new(
            "google_books",
            vec![Err("timeout".to_string()), Err("timeout".to_string()), Err("timeout".to_string())],
            vec![],
        ),
        FakeProvider::new("open_library", vec![Ok(None)], vec![]),
    ];
    let failed_result = drive(&mut failed_providers, item_hint("book-a-9781234567890"));
    assert_eq!(failed_result.status, "failed");

    let mut success_providers =
        vec![FakeProvider::new("google_books", vec![Ok(Some(candidate()))], vec![])];
    let success_result = drive(&mut success_providers, item_hint("book-b-9781234567890"));
    assert_eq!(success_result.status, "success");
    assert_eq!(success_result.proposals.len(), 1);
}

#[test]
fn run_diagnostics_record_each_failed_lookup() {
    let mut providers = vec![
        FakeProvider::new(
            "google_books",
            vec![Err("timeout".to_string()), Err("timeout".to_string()), Err("timeout".to_string())],
            vec![],
        ),
        FakeProvider::new("open_library", vec![Ok(None)], vec![]),
    ];
    let result = drive(&mut providers, Some("9781234567890".to_string()));
    assert_eq!(
        result.diagnostic.as_deref(),
        Some("google_books: isbn lookup failed: timeout")
    );
    // Three ISBN tries with two pauses, then one title/author lookup, then the fallback.
    assert_eq!(
        result.lookups,
        vec![
            (0, LookupKind::Isbn, None),
            (0, LookupKind::Isbn, Some(0)),
            (0, LookupKind::Isbn, Some(1)),
            (0, LookupKind::TitleAuthor, None),
            (1, LookupKind::Isbn, None),
            (1, LookupKind::TitleAuthor, None),
        ]
    );
}

#[test]
fn title_author_lookup_follows_isbn_lookup_without_result() {
    let mut providers = vec![FakeProvider::new(
        "google_books",
        vec![Ok(None)],
        vec![Ok(Some(candidate()))],
    )];
    let result = drive(&mut providers, item_hint("book-9781234567890"));
    assert_eq!(result.status, "success");
    assert_eq!(result.proposals.len(), 1);
    assert_eq!(result.proposals[0].0, "google_books");
    assert_eq!(result.proposals[0].1, None);
    assert_eq!(result.proposals[0].2.title.as_deref(), Some("Enriched Title"));
    assert_eq!(result.diagnostic, None);
}

#[test]
fn without_isbn_hint_only_title_author_lookups_run() {
    let mut providers = vec![FakeProvider::new("p", vec![Ok(Some(candidate()))], vec![Ok(None)])];
    let result = drive(&mut providers, None);
    assert_eq!(result.status, "failed");
    assert_eq!(
        result.diagnostic.as_deref(),
        Some("No enrichment proposal available from configured providers.")
    );
    assert_eq!(result.lookups, vec![(0, LookupKind::TitleAuthor, None)]);
}

#[test]
fn success_after_a_failed_try_is_degraded() {
    let mut providers = vec![FakeProvider::new(
        "google_books",
        vec![Err("busy".to_string()), Ok(Some(candidate()))],
        vec![],
    )];
    let result = drive(&mut providers, Some("0123456789".to_string()));
    assert_eq!(result.status, "degraded");
    assert_eq!(
        result.diagnostic.as_deref(),
        Some("google_books: isbn lookup failed: busy")
    );
    assert_eq!(
        result.proposals[0].1.as_deref(),
        Some("Primary provider degraded; fallback provider proposal used.")
    );
}

#[test]
fn notes_of_both_lookups_are_joined() {
    let mut providers = vec![
        FakeProvider::new(
            "a",
            vec![Err("e1".to_string()), Err("e2".to_string()), Err("e3".to_string())],
            vec![Err("t1".to_string()), Ok(None)],
        ),
        FakeProvider::new("b", vec![Err("x".to_string()), Ok(None)], vec![Ok(None)]),
    ];
    let result = drive(&mut providers, Some("0123456789".to_string()));
    assert_eq!(result.status, "failed");
    assert_eq!(
        result.diagnostic.as_deref(),
        Some("a: isbn lookup failed: e3 | title/author lookup failed: t1 | b: isbn lookup failed: x")
    );
}

#[test]
fn no_providers_fails_at_once() {
    let result = drive(&mut vec![], Some("0123456789".to_string()));
    assert_eq!(result.status, "failed");
    assert!(result.lookups.is_empty());
}

#[test]
fn isbn_extraction_finds_first_valid_token() {
    assert_eq!(extract_isbn("book-9781234567890").as_deref(), Some("9781234567890"));
    assert_eq!(extract_isbn("ISBN 978-1-23456-789-0 x").as_deref(), Some("9781234567890"));
    assert_eq!(extract_isbn("id 123456789x.epub").as_deref(), Some("123456789X"));
    assert_eq!(extract_isbn("12345 0123456789").as_deref(), Some("0123456789"));
    assert_eq!(extract_isbn("x123456789"), None);
    assert_eq!(extract_isbn("12345678X9"), None);
    assert_eq!(extract_isbn("no digits here"), None);
    assert_eq!(
        isbn_hint("Dune", "/books/0441013597.epub").as_deref(),
        Some("0441013597")
    );
}

#[test]
fn backoff_grows_with_attempts_and_adds_bounded_jitter() {
    assert_eq!(backoff_duration_with_jitter(0, 0), 100);
    assert_eq!(backoff_duration_with_jitter(1, 49), 249);
    assert_eq!(backoff_duration_with_jitter(2, 999), 349);
    assert_eq!(backoff_duration_with_jitter(0, 50), 100);
}

fn current_item() -> LibraryItemMetadata {
    LibraryItemMetadata {
        id: 7,
        title: "Old".to_string(),
        authors: vec!["Alice".to_string()],
        language: Some("en".to_string()),
        published_at: Some("2024-01-01".to_string()),
        format: "epub".to_string(),
        source_path: "/tmp/old.epub".to_string(),
        tags: vec![],
        collections: vec![],
    }
}

fn proposal_row(applied_at: Option<String>) -> ProposalApplyRow {
    ProposalApplyRow {
        id: 3,
        library_item_id: 7,
        title: Some("Enriched Title".to_string()),
        authors: "[\"Alice\",\"Bob\"]".to_string(),
        language: Some("fr".to_string()),
        published_at: Some("2024-12-31".to_string()),
        applied_at,
    }
}

#[test]
fn applying_a_proposal_takes_its_fields() {
    let update = merged_update(&current_item(), &proposal_row(None));
    assert_eq!(update.item_id, 7);
    assert_eq!(update.title, "Enriched Title");
    assert_eq!(update.authors, vec!["Alice".to_string(), "Bob".to_string()]);
    assert_eq!(update.language.as_deref(), Some("fr"));
    assert_eq!(update.published_at.as_deref(), Some("2024-12-31"));
    assert!(update.tags.is_none() && update.collections.is_none());
}

#[test]
fn empty_proposal_fields_keep_current_values() {
    let row = ProposalApplyRow {
        id: 3,
        library_item_id: 7,
        title: None,
        authors: "[]".to_string(),
        language: None,
        published_at: None,
        applied_at: None,
    };
    let update = merged_update(&current_item(), &row);
    assert_eq!(update.title, "Old");
    assert_eq!(update.authors, vec!["Alice".to_string()]);
    assert_eq!(update.language.as_deref(), Some("en"));
    assert_eq!(update.published_at.as_deref(), Some("2024-01-01"));

    let unreadable = ProposalApplyRow { authors: "not json".to_string(), ..row };
    assert_eq!(merged_update(&current_item(), &unreadable).authors, vec!["Alice".to_string()]);
}

#[test]
fn apply_proposal_is_idempotent_and_rejects_second_apply() {
    assert!(require_unapplied(&proposal_row(None)).is_ok());
    let second_apply = require_unapplied(&proposal_row(Some("2026-03-05T10:40:00Z".to_string())))
        .expect_err("second apply should fail");
    assert!(second_apply.contains("already applied"));
}

#[test]
fn an_extracted_isbn_is_found_again_unchanged() {
    for text in ["see 978-0-306-40615-7 here", "id 123456789x", "0441013597"] {
        let once = extract_isbn(text).expect("text holds an ISBN");
        assert_eq!(extract_isbn(&once).as_deref(), Some(once.as_str()));
    }
}

#[test]
fn merging_a_proposal_twice_changes_nothing_more() {
    let row = proposal_row(None);
    let once = merged_update(&current_item(), &row);
    let merged_item = LibraryItemMetadata {
        title: once.title.clone(),
        authors: once.authors.clone(),
        language: once.language.clone(),
        published_at: once.published_at.clone(),
        ..current_item()
    };
    let twice = merged_update(&merged_item, &row);
    assert_eq!(twice.title, once.title);
    assert_eq!(twice.authors, once.authors);
    assert_eq!(twice.language, once.language);
    assert_eq!(twice.published_at, once.published_at);
}
