use caudex::digest::sha256_hex;
use caudex::ingest::{
    analyze_file, build_precheck_key, bulk_import_options, check_import_candidates,
    check_request_path, complete_import, complete_merge, detect_format, diagnostic_record,
    epub_metadata_from_mime, format_from_mime,
    invalid_path_outcome, make_failed_result, merge_import_metadata, parse_epub, parse_mobi, parse_pdf, read_failed_outcome,
    single_import_options, summarize_bulk_scan, summarize_import_job, title_from_path,
    validate_import_path, BulkDuplicateMode, DedupeTracker, FileAnalysis, ImportFileStatus,
    ImportFormat, ParsedMetadata, PathCheck, PathInfo, ScanEntry, StartBulkImportInput,
    StartImportInput, StoreResult,
};

fn info(name: &str) -> PathInfo {
    let (stem, ext) = match name.rfind('.') {
        Some(i) => (name[..i].to_string(), Some(name[i + 1..].to_string())),
        None => (name.to_string(), None),
    };
    PathInfo { file_name: Some(name.to_string()), file_stem: Some(stem), extension: ext }
}

fn epub_bytes() -> Vec<u8> {
    let mut bytes = vec![0x50, 0x4B, 0x03, 0x04];
    bytes.resize(30, 0);
    bytes.extend_from_slice(b"mimetypeapplication/epub+zip");
    bytes.extend_from_slice(&[0u8; 16]);
    bytes
}

#[test]
fn formats_are_detected_from_content_then_extension() {
    assert_eq!(detect_format(&info("a.bin"), b"%PDF-1.7 rest"), Some(ImportFormat::Pdf));
    assert_eq!(detect_format(&info("a.bin"), &epub_bytes()), Some(ImportFormat::Epub));
    assert_eq!(detect_format(&info("a.MOBI"), b"plain text"), Some(ImportFormat::Mobi));
    assert_eq!(detect_format(&info("notes.txt"), b"plain text"), None);
    assert_eq!(ImportFormat::Epub.as_str(), "epub");
    assert_eq!(ImportFileStatus::Skipped.as_str(), "skipped");
    assert_eq!(BulkDuplicateMode::MergeMetadata.as_str(), "merge_metadata");
}

#[test]
fn titles_come_from_file_stems() {
    assert_eq!(title_from_path(&info("The Hobbit.epub")), "The Hobbit");
    assert_eq!(title_from_path(&PathInfo { file_name: None, file_stem: Some("  ".to_string()), extension: None }), "Untitled");
    assert_eq!(title_from_path(&PathInfo { file_name: None, file_stem: None, extension: None }), "Untitled");
}

#[test]
fn parsers_check_container_markers() {
    assert_eq!(parse_pdf(&info("a.pdf"), b"%PDF-1.4").unwrap().title, "a");
    assert_eq!(
        parse_pdf(&info("a.pdf"), b"nope").unwrap_err(),
        "File appears to be corrupted or unreadable PDF."
    );
    assert!(parse_epub(&info("b.epub"), &epub_bytes()).is_ok());
    assert_eq!(
        parse_epub(&info("b.epub"), b"not a zip").unwrap_err(),
        "File appears to be corrupted or unreadable EPUB."
    );
    let mut mobi = vec![0u8; 60];
    mobi.extend_from_slice(b"BOOKMOBI");
    assert_eq!(parse_mobi(&info("c.mobi"), &mobi).unwrap().title, "c");
    assert_eq!(detect_format(&info("c.bin"), &mobi), Some(ImportFormat::Mobi));
    assert_eq!(
        parse_mobi(&info("c.mobi"), b"xxxxBOOKMOBIxxxx").unwrap_err(),
        "File appears to be corrupted or unreadable MOBI."
    );
}

#[test]
fn precheck_key_and_digest() {
    assert_eq!(build_precheck_key(&info("Book.EPUB"), 42, 1700000000), "42:book.epub:1700000000");
    assert_eq!(
        sha256_hex(b"abc"),
        "ba7816bf8f01cfea414140de5dae2223b00361a396177a9cb410ff61f20015ad"
    );
    assert_eq!(sha256_hex(b"").len(), 64);
}

#[test]
fn import_paths_are_trimmed_and_deduplicated_per_request() {
    assert_eq!(validate_import_path("  /x/a.pdf "), Ok("/x/a.pdf".to_string()));
    assert_eq!(validate_import_path("   "), Err("Imported path is empty.".to_string()));

    let mut tracker = DedupeTracker::new();
    match check_request_path(&mut tracker, "/X/A.pdf") {
        PathCheck::Fresh { path_key } => assert_eq!(path_key, "/x/a.pdf"),
        PathCheck::Duplicate(_) => panic!("first path is fresh"),
    }
    match check_request_path(&mut tracker, "/x/a.PDF") {
        PathCheck::Duplicate(o) => {
            assert_eq!(o.result.status, ImportFileStatus::Skipped);
            assert_eq!(o.result.error_code.as_deref(), Some("duplicate_in_request"));
            assert_eq!(o.result.dedupe_decision.as_deref(), Some("skip_duplicate"));
        }
        PathCheck::Fresh { .. } => panic!("second path is a duplicate"),
    }
}

#[test]
fn analysis_flags_unsupported_and_corrupt_files() {
    let mut tracker = DedupeTracker::new();
    match analyze_file(&mut tracker, "/x/n.txt".to_string(), "/x/n.txt".to_string(), &info("n.txt"), b"hello", 1, BulkDuplicateMode::SkipDuplicate, false) {
        FileAnalysis::Done(o) => {
            assert_eq!(o.result.status, ImportFileStatus::Failed);
            assert_eq!(o.result.error_code.as_deref(), Some("unsupported_format"));
            assert_eq!(o.result.error_message.as_deref(), Some("Unsupported file format."));
        }
        _ => panic!("text is not importable"),
    }
    match analyze_file(&mut tracker, "/x/b.epub".to_string(), "/x/b.epub".to_string(), &info("b.epub"), b"broken", 1, BulkDuplicateMode::SkipDuplicate, false) {
        FileAnalysis::Done(o) => {
            assert_eq!(o.result.format, Some(ImportFormat::Epub));
            assert_eq!(o.result.error_code.as_deref(), Some("corrupt_file"));
            assert_eq!(
                o.result.error_message.as_deref(),
                Some("File appears to be corrupted or unreadable EPUB.")
            );
        }
        _ => panic!("corrupt epub is not importable"),
    }
}

#[test]
fn same_content_is_skipped_unless_forced() {
    let mut tracker = DedupeTracker::new();
    let bytes = b"%PDF-1.7 same content".to_vec();
    let pending = match analyze_file(&mut tracker, "/x/a.pdf".to_string(), "/x/a.pdf".to_string(), &info("a.pdf"), &bytes, 5, BulkDuplicateMode::SkipDuplicate, false) {
        FileAnalysis::Store(p) => p,
        _ => panic!("first copy is stored"),
    };
    assert_eq!(pending.metadata.title, "a");
    assert_eq!(pending.dedupe_decision, None);
    let stored = complete_import(&mut tracker, pending, Some(StoreResult::Stored { item_id: 1, index_work_unit_id: 2 }));
    assert_eq!(stored.result.status, ImportFileStatus::Success);
    assert_eq!(stored.result.item_id, Some(1));
    assert_eq!(stored.record.index_work_unit_id, Some(2));

    match analyze_file(&mut tracker, "/y/copy.pdf".to_string(), "/y/copy.pdf".to_string(), &info("copy.pdf"), &bytes, 9, BulkDuplicateMode::SkipDuplicate, false) {
        FileAnalysis::Done(o) => {
            assert_eq!(o.result.status, ImportFileStatus::Skipped);
            assert_eq!(o.result.error_code.as_deref(), Some("duplicate_content"));
            assert_eq!(o.result.error_message.as_deref(), Some("Duplicate content detected and skipped."));
        }
        _ => panic!("same content is a duplicate"),
    }
    match analyze_file(&mut tracker, "/z/copy.pdf".to_string(), "/z/copy.pdf".to_string(), &info("copy.pdf"), &bytes, 9, BulkDuplicateMode::ForceImport, true) {
        FileAnalysis::Store(p) => {
            assert_eq!(p.dedupe_decision.as_deref(), Some("force_import"));
            let dry = complete_import(&mut tracker, p, None);
            assert_eq!(dry.result.status, ImportFileStatus::Success);
            assert_eq!(dry.result.item_id, None);
        }
        _ => panic!("forced import is stored"),
    }
    // Different content under the same name is not a duplicate.
    match analyze_file(&mut tracker, "/w/a.pdf".to_string(), "/w/a.pdf".to_string(), &info("a.pdf"), b"%PDF-1.7 other content", 5, BulkDuplicateMode::SkipDuplicate, false) {
        FileAnalysis::Store(_) => {}
        _ => panic!("different content is new"),
    }
}

#[test]
fn job_summary_counts_statuses() {
    let items = vec![
        make_failed_result("/a".to_string(), "corrupt_file", "bad".to_string()),
        make_failed_result("/b".to_string(), "corrupt_file", "bad".to_string()),
    ];
    let job = summarize_import_job(9, items, 1);
    assert_eq!(job.status, "failed");
    assert_eq!(job.failed_count, 2);
    assert_eq!(job.processed_count, 2);
    assert_eq!(job.scanned_count, 2);
    let empty = summarize_import_job(1, vec![], 5);
    assert_eq!(empty.status, "success");
    assert_eq!(empty.scanned_count, 5);
}

#[test]
fn import_requests_need_candidates() {
    assert_eq!(
        single_import_options(&StartImportInput { paths: vec![] }).err(),
        Some("Select at least one file to import.".to_string())
    );
    let options = single_import_options(&StartImportInput { paths: vec!["/a".to_string(), "/b".to_string()] }).unwrap();
    assert_eq!(options.import_mode, "single");
    assert_eq!(options.scanned_count, 2);
    assert_eq!(check_import_candidates(&vec![], &vec![]), Err("No import candidates found.".to_string()));
}

#[test]
fn bulk_scan_sorts_files_and_reports_problems() {
    assert_eq!(
        summarize_bulk_scan("/none", false, false, vec![]).err(),
        Some("Selected folder does not exist.".to_string())
    );
    assert_eq!(
        summarize_bulk_scan("/file", true, false, vec![]).err(),
        Some("Selected path must be a folder.".to_string())
    );
    let found = summarize_bulk_scan(
        "/root",
        true,
        true,
        vec![
            ScanEntry::Directory,
            ScanEntry::File("/root/b.epub".to_string()),
            ScanEntry::Symlink { path: "/root/dead".to_string(), broken: true },
            ScanEntry::File("/root/a.pdf".to_string()),
            ScanEntry::Error { at: None },
        ],
    )
    .unwrap();
    assert_eq!(found.candidates, vec!["/root/a.pdf".to_string(), "/root/b.epub".to_string()]);
    assert_eq!(found.scanned_count, 4);
    assert_eq!(found.diagnostics.len(), 2);
    assert_eq!(found.diagnostics[0].error_code.as_deref(), Some("broken_symlink"));
    assert_eq!(found.diagnostics[1].source_path, "/root");
    assert_eq!(found.diagnostics[1].error_code.as_deref(), Some("walk_error"));
}

#[test]
fn path_and_read_failures_are_reported() {
    let o = invalid_path_outcome("  ", "Imported path is empty.");
    assert_eq!(o.result.status, ImportFileStatus::Failed);
    assert_eq!(o.result.error_code.as_deref(), Some("invalid_path"));
    assert_eq!(o.record.error_message.as_deref(), Some("Imported path is empty."));
    let o = read_failed_outcome("/x/a.pdf");
    assert_eq!(o.result.error_code.as_deref(), Some("read_failed"));
    assert_eq!(o.result.error_message.as_deref(), Some("Unable to read selected file."));
    let record = diagnostic_record(&o.result);
    assert_eq!(record.source_path, "/x/a.pdf");
    assert_eq!(record.status, ImportFileStatus::Failed);
    let options = bulk_import_options(
        &StartBulkImportInput { root_path: " /r ".to_string(), duplicate_mode: BulkDuplicateMode::ForceImport, dry_run: true },
        "/r".to_string(),
        7,
    );
    assert_eq!(options.import_mode, "bulk");
    assert_eq!(options.root_path.as_deref(), Some("/r"));
    assert!(options.dry_run);
    assert_eq!(options.scanned_count, 7);
}

#[test]
fn a_zip_that_is_not_an_epub_is_corrupt() {
    let bytes = b"PK\x03\x04not-really-an-epub";
    assert_eq!(detect_format(&info("bad.epub"), bytes), Some(ImportFormat::Epub));
    let mut tracker = DedupeTracker::new();
    match analyze_file(&mut tracker, "/x/bad.epub".to_string(), "/x/bad.epub".to_string(), &info("bad.epub"), bytes, 1, BulkDuplicateMode::SkipDuplicate, false) {
        FileAnalysis::Done(o) => {
            assert_eq!(o.result.status, ImportFileStatus::Failed);
            assert_eq!(o.result.error_code.as_deref(), Some("corrupt_file"));
        }
        _ => panic!("a bare zip is not an epub"),
    }
    assert!(parse_epub(&info("bad.epub"), bytes).is_err());
}

#[test]
fn merge_mode_merges_same_content_into_the_stored_item() {
    let mut tracker = DedupeTracker::new();
    let bytes = b"%PDF-1.7 merge me".to_vec();
    let first = match analyze_file(&mut tracker, "/m/a.pdf".to_string(), "/m/a.pdf".to_string(), &info("a.pdf"), &bytes, 3, BulkDuplicateMode::MergeMetadata, false) {
        FileAnalysis::Store(p) => p,
        _ => panic!("first copy is stored"),
    };
    let stored = complete_import(&mut tracker, first, Some(StoreResult::Stored { item_id: 1, index_work_unit_id: 10 }));
    assert_eq!(stored.result.status, ImportFileStatus::Success);

    let second = match analyze_file(&mut tracker, "/m/very-descriptive-title.pdf".to_string(), "/m/very-descriptive-title.pdf".to_string(), &info("very-descriptive-title.pdf"), &bytes, 3, BulkDuplicateMode::MergeMetadata, false) {
        FileAnalysis::Merge(p) => p,
        _ => panic!("second copy is merged"),
    };
    assert_eq!(second.dedupe_decision.as_deref(), Some("merge_metadata"));
    let merged = merge_import_metadata(
        ParsedMetadata { title: "a".to_string(), authors: vec![], language: Some("en".to_string()), published_at: None },
        &second.metadata,
    );
    assert_eq!(merged.title, "very-descriptive-title");
    assert!(merged.authors.is_empty());
    assert_eq!(merged.language.as_deref(), Some("en"));
    let outcome = complete_merge(&mut tracker, second, Some(1), Some(11));
    assert_eq!(outcome.result.status, ImportFileStatus::Success);
    assert_eq!(outcome.result.item_id, Some(1));
    assert_eq!(outcome.result.dedupe_decision.as_deref(), Some("merge_metadata"));
    assert_eq!(outcome.record.library_item_id, Some(1));
    assert_eq!(outcome.record.index_work_unit_id, Some(11));

    let kept = merge_import_metadata(
        ParsedMetadata { title: "a longer stored title".to_string(), authors: vec!["Ann".to_string()], language: None, published_at: None },
        &ParsedMetadata { title: "short".to_string(), authors: vec!["Bo".to_string()], language: Some("fr".to_string()), published_at: Some("2020-01-01".to_string()) },
    );
    assert_eq!(kept.title, "a longer stored title");
    assert_eq!(kept.authors, vec!["Ann".to_string()]);
    assert_eq!(kept.language.as_deref(), Some("fr"));
    assert_eq!(kept.published_at.as_deref(), Some("2020-01-01"));
}

#[test]
fn settled_job_counts_add_up_to_the_processed_files() {
    let mut tracker = DedupeTracker::new();
    let bytes = b"%PDF-1.7 counted".to_vec();
    let first = match analyze_file(&mut tracker, "/c/a.pdf".to_string(), "/c/a.pdf".to_string(), &info("a.pdf"), &bytes, 3, BulkDuplicateMode::SkipDuplicate, true) {
        FileAnalysis::Store(p) => p,
        _ => panic!("first copy is new"),
    };
    let stored = complete_import(&mut tracker, first, None);
    let skipped = match analyze_file(&mut tracker, "/c/b.pdf".to_string(), "/c/b.pdf".to_string(), &info("b.pdf"), &bytes, 3, BulkDuplicateMode::SkipDuplicate, true) {
        FileAnalysis::Done(o) => o,
        _ => panic!("same content is skipped"),
    };
    let failed = make_failed_result("/c/c.pdf".to_string(), "corrupt_file", "bad".to_string());
    let job = summarize_import_job(4, vec![stored.result, skipped.result, failed], 0);
    assert_eq!((job.success_count, job.skipped_count, job.failed_count), (1, 1, 1));
    assert_eq!(job.success_count + job.skipped_count + job.failed_count, job.processed_count);
    assert_eq!(job.status, "partial_success");
    assert_eq!(job.scanned_count, 3);
}

#[test]
fn a_digest_is_a_duplicate_once_some_tracked_file_had_it() {
    let mut tracker = DedupeTracker::new();
    assert!(!tracker.has_duplicate_hash(3, "abc"));
    tracker.track("/t/a".to_string(), "k1".to_string(), 3, "abc".to_string());
    tracker.track("/t/b".to_string(), "k2".to_string(), 5, "def".to_string());
    assert!(tracker.has_duplicate_hash(3, "abc"));
    assert!(tracker.has_duplicate_hash(5, "def"));
    assert!(!tracker.has_duplicate_hash(5, "abc"));
    assert!(!tracker.has_duplicate_hash(3, "def"));
}

#[test]
fn a_dry_run_merge_stores_nothing() {
    let mut tracker = DedupeTracker::new();
    let bytes = b"%PDF-1.7 dry merge".to_vec();
    let first = match analyze_file(&mut tracker, "/d/a.pdf".to_string(), "/d/a.pdf".to_string(), &info("a.pdf"), &bytes, 3, BulkDuplicateMode::MergeMetadata, true) {
        FileAnalysis::Store(p) => p,
        _ => panic!("first copy is new"),
    };
    let _ = complete_import(&mut tracker, first, None);
    let second = match analyze_file(&mut tracker, "/d/b.pdf".to_string(), "/d/b.pdf".to_string(), &info("b.pdf"), &bytes, 3, BulkDuplicateMode::MergeMetadata, true) {
        FileAnalysis::Merge(p) => p,
        _ => panic!("second copy is merged"),
    };
    assert!(second.dry_run);
    let outcome = complete_merge(&mut tracker, second, None, None);
    assert_eq!(outcome.result.item_id, None);
    assert_eq!(outcome.record.index_work_unit_id, None);
}

#[test]
fn recognised_content_decides_before_the_extension() {
    let pdf = Some("application/pdf".to_string());
    let epub = Some("application/epub+zip".to_string());
    let zip = Some("application/zip".to_string());
    assert_eq!(format_from_mime(&info("book.mobi"), &pdf), Some(ImportFormat::Pdf));
    assert_eq!(format_from_mime(&info("book.pdf"), &epub), Some(ImportFormat::Epub));
    assert_eq!(format_from_mime(&info("book.MOBI"), &zip), Some(ImportFormat::Mobi));
    assert_eq!(format_from_mime(&info("book.txt"), &None), None);
    assert_eq!(format_from_mime(&info("book"), &zip), None);

    let parsed = epub_metadata_from_mime(&info("novel.epub"), &epub).ok().unwrap();
    assert_eq!(parsed.title, "novel");
    assert_eq!(
        epub_metadata_from_mime(&info("novel.epub"), &zip).err(),
        Some("File appears to be corrupted or unreadable EPUB.".to_string())
    );
    assert!(epub_metadata_from_mime(&info("novel.epub"), &None).is_err());
}
