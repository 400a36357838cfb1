//! File import: format detection, minimal metadata, duplicate tracking, and the decisions
//! taken for each file of an import job. Reading files, walking folders and writing the
//! job log are left to the caller, which hands the results of that work to these functions.
use crate::digest::{hex_lower, sha256_hex, sha256_of};
use crate::metadata::{copy_opt_string, copy_strings};
use crate::order::{sort_strings, strings_sorted};
use crate::text::{
    decimal, lower, push_decimal, str_eq, to_ascii_lower, trim, trim_str, u64_to_string,
};
use std::collections::HashSet;
use vstd::prelude::*;
use vstd::string::*;

verus! {

pub struct StartImportInput {
    pub paths: Vec<String>,
}

pub struct StartBulkImportInput {
    pub root_path: String,
    pub duplicate_mode: BulkDuplicateMode,
    pub dry_run: bool,
}

/// What a bulk import does with a file whose content was already imported in the same job.
#[derive(Debug, Clone, Copy, PartialEq, Eq, Structural)]
pub enum BulkDuplicateMode {
    SkipDuplicate,
    MergeMetadata,
    ForceImport,
}

impl BulkDuplicateMode {
    pub open spec fn label(self) -> Seq<char> {
        match self {
            BulkDuplicateMode::SkipDuplicate => "skip_duplicate"@,
            BulkDuplicateMode::MergeMetadata => "merge_metadata"@,
            BulkDuplicateMode::ForceImport => "force_import"@,
        }
    }

    pub fn as_str(self) -> (r: &'static str)
        ensures
            r@ == self.label(),
    {
        match self {
            BulkDuplicateMode::SkipDuplicate => "skip_duplicate",
            BulkDuplicateMode::MergeMetadata => "merge_metadata",
            BulkDuplicateMode::ForceImport => "force_import",
        }
    }
}

#[derive(Debug, Clone, Copy, PartialEq, Eq, Structural)]
pub enum ImportFileStatus {
    Queued,
    Running,
    Success,
    Failed,
    Skipped,
}

impl ImportFileStatus {
    pub open spec fn label(self) -> Seq<char> {
        match self {
            ImportFileStatus::Queued => "queued"@,
            ImportFileStatus::Running => "running"@,
            ImportFileStatus::Success => "success"@,
            ImportFileStatus::Failed => "failed"@,
            ImportFileStatus::Skipped => "skipped"@,
        }
    }

    pub fn as_str(&self) -> (r: &'static str)
        ensures
            r@ == self.label(),
    {
        match self {
            ImportFileStatus::Queued => "queued",
            ImportFileStatus::Running => "running",
            ImportFileStatus::Success => "success",
            ImportFileStatus::Failed => "failed",
            ImportFileStatus::Skipped => "skipped",
        }
    }
}

#[derive(Debug, Clone, Copy, PartialEq, Eq, Structural)]
pub enum ImportFormat {
    Epub,
    Mobi,
    Pdf,
}

impl ImportFormat {
    pub open spec fn label(self) -> Seq<char> {
        match self {
            ImportFormat::Epub => "epub"@,
            ImportFormat::Mobi => "mobi"@,
            ImportFormat::Pdf => "pdf"@,
        }
    }

    pub fn as_str(self) -> (r: &'static str)
        ensures
            r@ == self.label(),
    {
        match self {
            ImportFormat::Epub => "epub",
            ImportFormat::Mobi => "mobi",
            ImportFormat::Pdf => "pdf",
        }
    }
}

#[derive(Debug, Clone)]
pub struct ImportFileResult {
    pub source_path: String,
    pub status: ImportFileStatus,
    pub format: Option<ImportFormat>,
    pub title: Option<String>,
    pub authors: Vec<String>,
    pub language: Option<String>,
    pub published_at: Option<String>,
    pub item_id: Option<i64>,
    pub index_work_unit_id: Option<i64>,
    pub error_code: Option<String>,
    pub error_message: Option<String>,
    pub dedupe_decision: Option<String>,
}

#[derive(Debug, Clone)]
pub struct ImportJobResult {
    pub job_id: i64,
    pub status: String,
    pub scanned_count: usize,
    pub processed_count: usize,
    pub success_count: usize,
    pub failed_count: usize,
    pub skipped_count: usize,
    pub items: Vec<ImportFileResult>,
}

/// The metadata read from a supported file.
#[derive(Debug, Clone)]
pub struct ParsedMetadata {
    pub title: String,
    pub authors: Vec<String>,
    pub language: Option<String>,
    pub published_at: Option<String>,
}

/// The parts of a file path that the import reads: its final component, that component
/// without its extension, and the extension.
#[derive(Debug, Clone)]
pub struct PathInfo {
    pub file_name: Option<String>,
    pub file_stem: Option<String>,
    pub extension: Option<String>,
}

/// One row of an import job's item log.
#[derive(Debug, Clone)]
pub struct ImportJobItemRecord {
    pub source_path: String,
    pub format: Option<ImportFormat>,
    pub status: ImportFileStatus,
    pub error_code: Option<String>,
    pub error_message: Option<String>,
    pub library_item_id: Option<i64>,
    pub index_work_unit_id: Option<i64>,
    pub precheck_key: Option<String>,
    pub content_hash: Option<String>,
    pub dedupe_decision: Option<String>,
}

/// The result reported for one file, and the log row written for it.
#[derive(Debug, Clone)]
pub struct FileOutcome {
    pub result: ImportFileResult,
    pub record: ImportJobItemRecord,
}

pub struct ImportJobOptions {
    pub import_mode: &'static str,
    pub duplicate_mode: BulkDuplicateMode,
    pub dry_run: bool,
    pub root_path: Option<String>,
    pub scanned_count: usize,
}

pub struct BulkDiscovery {
    pub candidates: Vec<String>,
    pub diagnostics: Vec<ImportFileResult>,
    pub scanned_count: usize,
}

/// What a folder walk met at one entry.
pub enum ScanEntry {
    File(String),
    Symlink { path: String, broken: bool },
    Directory,
    Error { at: Option<String> },
}

pub open spec fn str_set(v: Seq<String>) -> Set<Seq<char>> {
    Set::new(|x: Seq<char>| exists|i: int| 0 <= i < v.len() && #[trigger] v[i]@ == x)
}

pub open spec fn pair_set(v: Seq<(u64, String)>) -> Set<(u64, Seq<char>)> {
    Set::new(
        |p: (u64, Seq<char>)|
            exists|i: int| 0 <= i < v.len() && #[trigger] v[i].0 == p.0 && v[i].1@ == p.1,
    )
}

/// The paths, quick-check keys, sizes and content digests seen so far in one import job.
pub struct DedupeTracker {
    seen_paths: Vec<String>,
    seen_precheck_keys: Vec<String>,
    seen_sizes: HashSet<u64>,
    seen_hashes: Vec<(u64, String)>,
}

fn contains_string(v: &Vec<String>, s: &str) -> (r: bool)
    ensures
        r == str_set(v@).contains(s@),
{
    let mut i: usize = 0;
    while i < v.len()
        invariant
            i <= v@.len(),
            forall|k: int| 0 <= k < i ==> v@[k]@ != s@,
        decreases v@.len() - i,
    {
        if str_eq(v[i].as_str(), s) {
            assert(v@[i as int]@ == s@);
            return true;
        }
        i += 1;
    }
    false
}

fn push_string(v: &mut Vec<String>, s: String)
    ensures
        str_set(final(v)@) == str_set(old(v)@).insert(s@),
{
    if !contains_string(v, s.as_str()) {
        let ghost before = v@;
        v.push(s);
        assert(str_set(v@) =~= str_set(before).insert(v@.last()@)) by {
            assert forall|x: Seq<char>| str_set(v@).contains(x) implies str_set(before).insert(
                v@.last()@,
            ).contains(x) by {
                let i = choose|i: int| 0 <= i < v@.len() && #[trigger] v@[i]@ == x;
                if i < before.len() {
                    assert(before[i]@ == x);
                }
            }
            assert forall|x: Seq<char>| str_set(before).insert(v@.last()@).contains(x) implies str_set(
                v@,
            ).contains(x) by {
                if x != v@.last()@ {
                    let i = choose|i: int| 0 <= i < before.len() && #[trigger] before[i]@ == x;
                    assert(v@[i]@ == x);
                } else {
                    assert(v@[v@.len() - 1]@ == x);
                }
            }
        }
    } else {
        assert(str_set(v@) =~= str_set(v@).insert(s@));
    }
}

impl DedupeTracker {
    pub closed spec fn paths(&self) -> Set<Seq<char>> {
        str_set(self.seen_paths@)
    }

    pub closed spec fn precheck_keys(&self) -> Set<Seq<char>> {
        str_set(self.seen_precheck_keys@)
    }

    pub closed spec fn sizes(&self) -> Set<u64> {
        self.seen_sizes@
    }

    pub closed spec fn hashes(&self) -> Set<(u64, Seq<char>)> {
        pair_set(self.seen_hashes@)
    }

    /// Whether this tracker holds exactly what `old` held plus one file's path key,
    /// quick-check key, size and digest.
    pub open spec fn tracked_from(
        self,
        old: Self,
        path_key: Seq<char>,
        precheck_key: Seq<char>,
        size: u64,
        hash: Seq<char>,
    ) -> bool {
        &&& self.paths() == old.paths().insert(path_key)
        &&& self.precheck_keys() == old.precheck_keys().insert(precheck_key)
        &&& self.sizes() == old.sizes().insert(size)
        &&& self.hashes() == old.hashes().insert((size, hash))
    }

    pub open spec fn same_as(self, old: Self) -> bool {
        &&& self.paths() == old.paths()
        &&& self.precheck_keys() == old.precheck_keys()
        &&& self.sizes() == old.sizes()
        &&& self.hashes() == old.hashes()
    }

    pub fn new() -> (r: Self)
        ensures
            r.paths().is_empty(),
            r.precheck_keys().is_empty(),
            r.sizes().is_empty(),
            r.hashes().is_empty(),
    {
        let r = DedupeTracker {
            seen_paths: Vec::new(),
            seen_precheck_keys: Vec::new(),
            seen_sizes: HashSet::new(),
            seen_hashes: Vec::new(),
        };
        assert(r.paths() =~= Set::empty());
        assert(r.precheck_keys() =~= Set::empty());
        assert(r.sizes() =~= Set::empty());
        assert(r.hashes() =~= Set::empty());
        r
    }

    /// Whether a file of this size with this digest was seen.
    pub fn has_duplicate_hash(&self, size: u64, hash: &str) -> (r: bool)
        ensures
            r == self.hashes().contains((size, hash@)),
    {
        let mut i: usize = 0;
        while i < self.seen_hashes.len()
            invariant
                i <= self.seen_hashes@.len(),
                forall|k: int|
                    0 <= k < i ==> !(#[trigger] self.seen_hashes@[k].0 == size
                        && self.seen_hashes@[k].1@ == hash@),
            decreases self.seen_hashes@.len() - i,
        {
            if self.seen_hashes[i].0 == size && str_eq(self.seen_hashes[i].1.as_str(), hash) {
                assert(self.seen_hashes@[i as int].0 == (size, hash@).0);
                return true;
            }
            i += 1;
        }
        false
    }

    pub fn has_precheck_key(&self, key: &str) -> (r: bool)
        ensures
            r == self.precheck_keys().contains(key@),
    {
        contains_string(&self.seen_precheck_keys, key)
    }

    pub fn has_size(&self, size: u64) -> (r: bool)
        ensures
            r == self.sizes().contains(size),
    {
        broadcast use vstd::std_specs::hash::group_hash_axioms;

        self.seen_sizes.contains(&size)
    }

    /// Records a path key; says whether it was new.
    pub fn insert_path(&mut self, path_key: String) -> (fresh: bool)
        ensures
            fresh == !old(self).paths().contains(path_key@),
            final(self).paths() == old(self).paths().insert(path_key@),
            final(self).precheck_keys() == old(self).precheck_keys(),
            final(self).sizes() == old(self).sizes(),
            final(self).hashes() == old(self).hashes(),
    {
        let seen = contains_string(&self.seen_paths, path_key.as_str());
        push_string(&mut self.seen_paths, path_key);
        !seen
    }

    /// Records one file's path key, quick-check key, size and digest.
    pub fn track(&mut self, path_key: String, precheck_key: String, size: u64, content_hash: String)
        ensures
            final(self).tracked_from(*old(self), path_key@, precheck_key@, size, content_hash@),
    {
        broadcast use vstd::std_specs::hash::group_hash_axioms;

        push_string(&mut self.seen_paths, path_key);
        push_string(&mut self.seen_precheck_keys, precheck_key);
        self.seen_sizes.insert(size);
        let ghost hashes_before = self.seen_hashes@;
        let ghost h = content_hash@;
        self.seen_hashes.push((size, content_hash));
        assert(pair_set(self.seen_hashes@) =~= pair_set(hashes_before).insert((size, h))) by {
            let v = self.seen_hashes@;
            assert forall|p: (u64, Seq<char>)| pair_set(v).contains(p) implies pair_set(
                hashes_before,
            ).insert((size, h)).contains(p) by {
                let i = choose|i: int| 0 <= i < v.len() && #[trigger] v[i].0 == p.0 && v[i].1@ == p.1;
                if i < hashes_before.len() {
                    assert(hashes_before[i].0 == p.0);
                }
            }
            assert forall|p: (u64, Seq<char>)| pair_set(hashes_before).insert((size, h)).contains(
                p,
            ) implies pair_set(v).contains(p) by {
                if p == (size, h) {
                    assert(v[hashes_before.len() as int].0 == p.0);
                } else {
                    let i = choose|i: int|
                        0 <= i < hashes_before.len() && #[trigger] hashes_before[i].0 == p.0
                            && hashes_before[i].1@ == p.1;
                    assert(v[i].0 == p.0);
                }
            }
        }
    }
}

/// Whether `ts[i + 1]` is `ts[i]` after tracking the `i`-th file.
pub open spec fn tracked_step(
    ts: Seq<DedupeTracker>,
    path_keys: Seq<Seq<char>>,
    precheck_keys: Seq<Seq<char>>,
    sizes: Seq<u64>,
    hashes: Seq<Seq<char>>,
    i: int,
) -> bool {
    ts[i + 1].tracked_from(ts[i], path_keys[i], precheck_keys[i], sizes[i], hashes[i])
}

proof fn lemma_tracked_prefix_hashes(
    ts: Seq<DedupeTracker>,
    path_keys: Seq<Seq<char>>,
    precheck_keys: Seq<Seq<char>>,
    sizes: Seq<u64>,
    hashes: Seq<Seq<char>>,
    n: int,
    size: u64,
    hash: Seq<char>,
)
    requires
        0 <= n <= sizes.len(),
        ts.len() == sizes.len() + 1,
        path_keys.len() == sizes.len(),
        precheck_keys.len() == sizes.len(),
        hashes.len() == sizes.len(),
        ts[0].hashes().is_empty(),
        forall|i: int|
            0 <= i < sizes.len() ==> #[trigger] tracked_step(
                ts,
                path_keys,
                precheck_keys,
                sizes,
                hashes,
                i,
            ),
    ensures
        ts[n].hashes().contains((size, hash)) <==> exists|i: int|
            0 <= i < n && sizes[i] == size && #[trigger] hashes[i] == hash,
    decreases n,
{
    if n > 0 {
        lemma_tracked_prefix_hashes(ts, path_keys, precheck_keys, sizes, hashes, n - 1, size, hash);
        assert(tracked_step(ts, path_keys, precheck_keys, sizes, hashes, n - 1));
        if sizes[n - 1] == size && hashes[n - 1] == hash {
            assert(ts[n].hashes().contains((size, hash)));
        }
    }
}

/// Starting from an empty tracker and tracking one file after another, a size and digest
/// are then reported as a duplicate exactly when some tracked file had that size and digest.
pub proof fn lemma_tracked_sequence_hashes(
    ts: Seq<DedupeTracker>,
    path_keys: Seq<Seq<char>>,
    precheck_keys: Seq<Seq<char>>,
    sizes: Seq<u64>,
    hashes: Seq<Seq<char>>,
    size: u64,
    hash: Seq<char>,
)
    requires
        ts.len() == sizes.len() + 1,
        path_keys.len() == sizes.len(),
        precheck_keys.len() == sizes.len(),
        hashes.len() == sizes.len(),
        ts[0].hashes().is_empty(),
        forall|i: int|
            0 <= i < sizes.len() ==> #[trigger] tracked_step(
                ts,
                path_keys,
                precheck_keys,
                sizes,
                hashes,
                i,
            ),
    ensures
        ts.last().hashes().contains((size, hash)) <==> exists|i: int|
            0 <= i < sizes.len() && sizes[i] == size && #[trigger] hashes[i] == hash,
{
    lemma_tracked_prefix_hashes(
        ts,
        path_keys,
        precheck_keys,
        sizes,
        hashes,
        sizes.len() as int,
        size,
        hash,
    );
}

// ---------------------------------------------------------------------------------------
// Format detection and minimal metadata
// ---------------------------------------------------------------------------------------
/// The MIME type that the `infer` crate reports for some bytes, if it recognises them.
pub uninterp spec fn inferred_mime_type(bytes: Seq<u8>) -> Option<Seq<char>>;

/// Calls `infer::get`. Claims the result is the MIME type of the file type that `infer`
/// recognises first in `bytes` (named, not spelled out), `None` where it recognises none.
#[verifier::external_body]
fn infer_mime_type(bytes: &[u8]) -> (r: Option<String>)
    ensures
        r.deep_view() == inferred_mime_type(bytes@),
{
    infer::get(bytes).map(|kind| kind.mime_type().to_string())
}

pub open spec fn starts_with_pdf_marker(b: Seq<u8>) -> bool {
    b.len() >= 5 && b[0] == 0x25u8 && b[1] == 0x50u8 && b[2] == 0x44u8 && b[3] == 0x46u8 && b[4]
        == 0x2du8
}

/// Bytes 60..68 read `BOOKMOBI`.
pub open spec fn has_mobi_marker(b: Seq<u8>) -> bool {
    b.len() >= 68 && b[60] == 0x42u8 && b[61] == 0x4fu8 && b[62] == 0x4fu8 && b[63] == 0x4bu8
        && b[64] == 0x4du8 && b[65] == 0x4fu8 && b[66] == 0x42u8 && b[67] == 0x49u8
}

pub open spec fn format_from_extension(ext: Option<Seq<char>>) -> Option<ImportFormat> {
    match ext {
        Some(e) => if lower(e) == "epub"@ {
            Some(ImportFormat::Epub)
        } else if lower(e) == "mobi"@ {
            Some(ImportFormat::Mobi)
        } else if lower(e) == "pdf"@ {
            Some(ImportFormat::Pdf)
        } else {
            None
        },
        None => None,
    }
}

/// The format of a file without a leading marker: by the MIME type recognised in its
/// content, then by its extension.
pub open spec fn format_by_mime(info: PathInfo, mime: Option<Seq<char>>) -> Option<ImportFormat> {
    if mime == Some("application/pdf"@) {
        Some(ImportFormat::Pdf)
    } else if mime == Some("application/epub+zip"@) {
        Some(ImportFormat::Epub)
    } else {
        format_from_extension(info.extension.deep_view())
    }
}

/// The format of a file: by its leading bytes, then by what `infer` recognises, then by
/// its extension.
pub open spec fn detected_format(info: PathInfo, bytes: Seq<u8>) -> Option<ImportFormat> {
    if starts_with_pdf_marker(bytes) {
        Some(ImportFormat::Pdf)
    } else if has_mobi_marker(bytes) {
        Some(ImportFormat::Mobi)
    } else {
        format_by_mime(info, inferred_mime_type(bytes))
    }
}

fn starts_with_pdf(bytes: &[u8]) -> (r: bool)
    ensures
        r == starts_with_pdf_marker(bytes@),
{
    bytes.len() >= 5 && bytes[0] == 0x25u8 && bytes[1] == 0x50u8 && bytes[2] == 0x44u8 && bytes[3]
        == 0x46u8 && bytes[4] == 0x2du8
}

fn has_mobi(bytes: &[u8]) -> (r: bool)
    ensures
        r == has_mobi_marker(bytes@),
{
    bytes.len() >= 68 && bytes[60] == 0x42u8 && bytes[61] == 0x4fu8 && bytes[62] == 0x4fu8
        && bytes[63] == 0x4bu8 && bytes[64] == 0x4du8 && bytes[65] == 0x4fu8 && bytes[66] == 0x42u8
        && bytes[67] == 0x49u8
}

/// The format of a file without a leading marker, given the MIME type recognised in its
/// content (if any): PDF or EPUB by that type, otherwise by the file's extension.
pub fn format_from_mime(info: &PathInfo, mime: &Option<String>) -> (r: Option<ImportFormat>)
    ensures
        r == format_by_mime(*info, mime.deep_view()),
{
    match mime {
        Some(m) => {
            if str_eq(m.as_str(), "application/pdf") {
                return Some(ImportFormat::Pdf);
            }
            if str_eq(m.as_str(), "application/epub+zip") {
                return Some(ImportFormat::Epub);
            }
        },
        None => {},
    }
    match &info.extension {
        Some(ext) => {
            let lowered = to_ascii_lower(ext.as_str());
            if str_eq(lowered.as_str(), "epub") {
                Some(ImportFormat::Epub)
            } else if str_eq(lowered.as_str(), "mobi") {
                Some(ImportFormat::Mobi)
            } else if str_eq(lowered.as_str(), "pdf") {
                Some(ImportFormat::Pdf)
            } else {
                None
            }
        },
        None => None,
    }
}

/// Detects a supported ebook format.
pub fn detect_format(info: &PathInfo, bytes: &[u8]) -> (r: Option<ImportFormat>)
    ensures
        r == detected_format(*info, bytes@),
{
    if starts_with_pdf(bytes) {
        return Some(ImportFormat::Pdf);
    }
    if has_mobi(bytes) {
        return Some(ImportFormat::Mobi);
    }
    let mime = infer_mime_type(bytes);
    format_from_mime(info, &mime)
}

/// The title taken from a file's name: its stem, or `Untitled` where the stem is blank.
pub open spec fn title_from_stem(stem: Option<Seq<char>>) -> Seq<char> {
    match stem {
        Some(s) => if trim(s).len() > 0 {
            s
        } else {
            "Untitled"@
        },
        None => "Untitled"@,
    }
}

pub fn title_from_path(info: &PathInfo) -> (r: String)
    ensures
        r@ == title_from_stem(info.file_stem.deep_view()),
{
    match &info.file_stem {
        Some(stem) => {
            if trim_str(stem.as_str()).unicode_len() > 0 {
                stem.clone()
            } else {
                String::from_str("Untitled")
            }
        },
        None => String::from_str("Untitled"),
    }
}

/// The metadata every supported format yields: the title from the file name, nothing more.
pub open spec fn metadata_from_path(m: ParsedMetadata, info: PathInfo) -> bool {
    &&& m.title@ == title_from_stem(info.file_stem.deep_view())
    &&& m.authors@.len() == 0
    &&& m.language is None
    &&& m.published_at is None
}

/// An EPUB container: a ZIP archive whose first entry is the `mimetype` file naming the
/// EPUB type, which is what `infer` recognises as `application/epub+zip`.
pub open spec fn is_epub_content(bytes: Seq<u8>) -> bool {
    inferred_mime_type(bytes) == Some("application/epub+zip"@)
}

/// Whether the bytes carry the container marker that a format needs.
pub open spec fn content_readable(format: ImportFormat, bytes: Seq<u8>) -> bool {
    match format {
        ImportFormat::Pdf => starts_with_pdf_marker(bytes),
        ImportFormat::Epub => is_epub_content(bytes),
        ImportFormat::Mobi => has_mobi_marker(bytes),
    }
}

pub open spec fn corrupt_message(format: ImportFormat) -> Seq<char> {
    match format {
        ImportFormat::Pdf => "File appears to be corrupted or unreadable PDF."@,
        ImportFormat::Epub => "File appears to be corrupted or unreadable EPUB."@,
        ImportFormat::Mobi => "File appears to be corrupted or unreadable MOBI."@,
    }
}

fn path_metadata(info: &PathInfo) -> (m: ParsedMetadata)
    ensures
        metadata_from_path(m, *info),
{
    ParsedMetadata {
        title: title_from_path(info),
        authors: Vec::new(),
        language: None,
        published_at: None,
    }
}

pub fn parse_pdf(info: &PathInfo, bytes: &[u8]) -> (r: Result<ParsedMetadata, String>)
    ensures
        r is Ok <==> starts_with_pdf_marker(bytes@),
        r matches Ok(m) ==> metadata_from_path(m, *info),
        r matches Err(e) ==> e@ == corrupt_message(ImportFormat::Pdf),
{
    if !starts_with_pdf(bytes) {
        return Err(String::from_str("File appears to be corrupted or unreadable PDF."));
    }
    Ok(path_metadata(info))
}

pub fn parse_epub(info: &PathInfo, bytes: &[u8]) -> (r: Result<ParsedMetadata, String>)
    ensures
        r is Ok <==> is_epub_content(bytes@),
        r matches Ok(m) ==> metadata_from_path(m, *info),
        r matches Err(e) ==> e@ == corrupt_message(ImportFormat::Epub),
{
    let mime = infer_mime_type(bytes);
    epub_metadata_from_mime(info, &mime)
}

/// An EPUB's metadata given the MIME type recognised in its content: the file is read as
/// an EPUB only where that type is `application/epub+zip`.
pub fn epub_metadata_from_mime(info: &PathInfo, mime: &Option<String>) -> (r: Result<
    ParsedMetadata,
    String,
>)
    ensures
        r is Ok <==> mime.deep_view() == Some("application/epub+zip"@),
        r matches Ok(m) ==> metadata_from_path(m, *info),
        r matches Err(e) ==> e@ == corrupt_message(ImportFormat::Epub),
{
    let epub = match mime {
        Some(m) => str_eq(m.as_str(), "application/epub+zip"),
        None => false,
    };
    if !epub {
        return Err(String::from_str("File appears to be corrupted or unreadable EPUB."));
    }
    Ok(path_metadata(info))
}

pub fn parse_mobi(info: &PathInfo, bytes: &[u8]) -> (r: Result<ParsedMetadata, String>)
    ensures
        r is Ok <==> has_mobi_marker(bytes@),
        r matches Ok(m) ==> metadata_from_path(m, *info),
        r matches Err(e) ==> e@ == corrupt_message(ImportFormat::Mobi),
{
    if !has_mobi(bytes) {
        return Err(String::from_str("File appears to be corrupted or unreadable MOBI."));
    }
    Ok(path_metadata(info))
}

/// The quick-check key of a file: `size:lower-cased file name:modification seconds`.
pub open spec fn precheck_key_of(file_name: Option<Seq<char>>, size: nat, modified: nat) -> Seq<
    char,
> {
    let name = match file_name {
        Some(n) => n,
        None => Seq::empty(),
    };
    decimal(size) + ":"@ + lower(name) + ":"@ + decimal(modified)
}

pub fn build_precheck_key(info: &PathInfo, size: u64, modified_seconds: u64) -> (r: String)
    ensures
        r@ == precheck_key_of(info.file_name.deep_view(), size as nat, modified_seconds as nat),
{
    let name = match &info.file_name {
        Some(n) => to_ascii_lower(n.as_str()),
        None => String::new(),
    };
    let mut key = u64_to_string(size);
    key.append(":");
    key.append(name.as_str());
    key.append(":");
    push_decimal(&mut key, modified_seconds);
    key
}

// ---------------------------------------------------------------------------------------
// Per-file outcomes
// ---------------------------------------------------------------------------------------
/// A reported result that carries no metadata and no stored identifiers.
pub open spec fn bare_result(
    r: ImportFileResult,
    source: Seq<char>,
    status: ImportFileStatus,
    format: Option<ImportFormat>,
    code: Option<Seq<char>>,
    message: Option<Seq<char>>,
    decision: Option<Seq<char>>,
) -> bool {
    &&& r.source_path@ == source
    &&& r.status == status
    &&& r.format == format
    &&& r.title is None
    &&& r.authors@.len() == 0
    &&& r.language is None
    &&& r.published_at is None
    &&& r.item_id is None
    &&& r.index_work_unit_id is None
    &&& r.error_code.deep_view() == code
    &&& r.error_message.deep_view() == message
    &&& r.dedupe_decision.deep_view() == decision
}

/// A reported result that carries a file's metadata.
pub open spec fn metadata_result(
    r: ImportFileResult,
    source: Seq<char>,
    status: ImportFileStatus,
    format: ImportFormat,
    m: ParsedMetadata,
    item_id: Option<i64>,
    index_work_unit_id: Option<i64>,
    code: Option<Seq<char>>,
    message: Option<Seq<char>>,
    decision: Option<Seq<char>>,
) -> bool {
    &&& r.source_path@ == source
    &&& r.status == status
    &&& r.format == Some(format)
    &&& r.title == Some(m.title)
    &&& r.authors == m.authors
    &&& r.language == m.language
    &&& r.published_at == m.published_at
    &&& r.item_id == item_id
    &&& r.index_work_unit_id == index_work_unit_id
    &&& r.error_code.deep_view() == code
    &&& r.error_message.deep_view() == message
    &&& r.dedupe_decision.deep_view() == decision
}

/// A log row with the given fields.
pub open spec fn record_is(
    rec: ImportJobItemRecord,
    source: Seq<char>,
    format: Option<ImportFormat>,
    status: ImportFileStatus,
    code: Option<Seq<char>>,
    message: Option<Seq<char>>,
    item_id: Option<i64>,
    index_work_unit_id: Option<i64>,
    precheck_key: Option<Seq<char>>,
    content_hash: Option<Seq<char>>,
    decision: Option<Seq<char>>,
) -> bool {
    &&& rec.source_path@ == source
    &&& rec.format == format
    &&& rec.status == status
    &&& rec.error_code.deep_view() == code
    &&& rec.error_message.deep_view() == message
    &&& rec.library_item_id == item_id
    &&& rec.index_work_unit_id == index_work_unit_id
    &&& rec.precheck_key.deep_view() == precheck_key
    &&& rec.content_hash.deep_view() == content_hash
    &&& rec.dedupe_decision.deep_view() == decision
}

/// A failure result for a file that could not be imported.
pub fn make_failed_result(source_path: String, error_code: &str, error_message: String) -> (r:
    ImportFileResult)
    ensures
        bare_result(
            r,
            source_path@,
            ImportFileStatus::Failed,
            None,
            Some(error_code@),
            Some(error_message@),
            None,
        ),
{
    ImportFileResult {
        source_path,
        status: ImportFileStatus::Failed,
        format: None,
        title: None,
        authors: Vec::new(),
        language: None,
        published_at: None,
        item_id: None,
        index_work_unit_id: None,
        error_code: Some(String::from_str(error_code)),
        error_message: Some(error_message),
        dedupe_decision: None,
    }
}

fn make_record(
    source_path: &str,
    format: Option<ImportFormat>,
    status: ImportFileStatus,
    error_code: Option<&str>,
    error_message: Option<&str>,
    library_item_id: Option<i64>,
    index_work_unit_id: Option<i64>,
    precheck_key: Option<&str>,
    content_hash: Option<&str>,
    dedupe_decision: Option<&str>,
) -> (rec: ImportJobItemRecord)
    ensures
        record_is(
            rec,
            source_path@,
            format,
            status,
            opt_view(error_code),
            opt_view(error_message),
            library_item_id,
            index_work_unit_id,
            opt_view(precheck_key),
            opt_view(content_hash),
            opt_view(dedupe_decision),
        ),
{
    ImportJobItemRecord {
        source_path: String::from_str(source_path),
        format,
        status,
        error_code: opt_string(error_code),
        error_message: opt_string(error_message),
        library_item_id,
        index_work_unit_id,
        precheck_key: opt_string(precheck_key),
        content_hash: opt_string(content_hash),
        dedupe_decision: opt_string(dedupe_decision),
    }
}

pub open spec fn opt_view(s: Option<&str>) -> Option<Seq<char>> {
    match s {
        Some(v) => Some(v@),
        None => None,
    }
}

fn opt_string(s: Option<&str>) -> (r: Option<String>)
    ensures
        r.deep_view() == opt_view(s),
{
    match s {
        Some(v) => Some(String::from_str(v)),
        None => None,
    }
}

/// The outcome for a path that could not be resolved.
pub fn invalid_path_outcome(raw_path: &str, message: &str) -> (o: FileOutcome)
    ensures
        bare_result(
            o.result,
            raw_path@,
            ImportFileStatus::Failed,
            None,
            Some("invalid_path"@),
            Some(message@),
            None,
        ),
        record_is(
            o.record,
            raw_path@,
            None,
            ImportFileStatus::Failed,
            Some("invalid_path"@),
            Some(message@),
            None,
            None,
            None,
            None,
            None,
        ),
{
    FileOutcome {
        result: make_failed_result(
            String::from_str(raw_path),
            "invalid_path",
            String::from_str(message),
        ),
        record: make_record(
            raw_path,
            None,
            ImportFileStatus::Failed,
            Some("invalid_path"),
            Some(message),
            None,
            None,
            None,
            None,
            None,
        ),
    }
}

/// The outcome for a file that could not be read.
pub fn read_failed_outcome(source_path: &str) -> (o: FileOutcome)
    ensures
        bare_result(
            o.result,
            source_path@,
            ImportFileStatus::Failed,
            None,
            Some("read_failed"@),
            Some("Unable to read selected file."@),
            None,
        ),
        record_is(
            o.record,
            source_path@,
            None,
            ImportFileStatus::Failed,
            Some("read_failed"@),
            Some("Unable to read selected file."@),
            None,
            None,
            None,
            None,
            None,
        ),
{
    let message = "Unable to read selected file.";
    FileOutcome {
        result: make_failed_result(String::from_str(source_path), "read_failed", String::from_str(message)),
        record: make_record(
            source_path,
            None,
            ImportFileStatus::Failed,
            Some("read_failed"),
            Some(message),
            None,
            None,
            None,
            None,
            None,
        ),
    }
}

/// The trimmed path to import, or the error for a blank one.
pub fn validate_import_path(raw: &str) -> (r: Result<String, String>)
    ensures
        trim(raw@).len() == 0 ==> (r matches Err(e) && e@ == "Imported path is empty."@),
        trim(raw@).len() > 0 ==> (r matches Ok(p) && p@ == trim(raw@)),
{
    let trimmed = trim_str(raw);
    if trimmed.unicode_len() == 0 {
        return Err(String::from_str("Imported path is empty."));
    }
    Ok(String::from_str(trimmed))
}

/// The step that follows a request-level path check.
pub enum PathCheck {
    /// The path is new in this request; its key is the lower-cased path.
    Fresh { path_key: String },
    /// The path was already in this request.
    Duplicate(FileOutcome),
}

/// Records a resolved source path in the tracker and says whether the same path (ignoring
/// ASCII case) was already part of this request.
pub fn check_request_path(tracker: &mut DedupeTracker, source_path: &str) -> (r: PathCheck)
    ensures
        final(tracker).paths() == old(tracker).paths().insert(lower(source_path@)),
        final(tracker).precheck_keys() == old(tracker).precheck_keys(),
        final(tracker).sizes() == old(tracker).sizes(),
        final(tracker).hashes() == old(tracker).hashes(),
        old(tracker).paths().contains(lower(source_path@)) ==> (r matches PathCheck::Duplicate(o)
            && bare_result(
            o.result,
            source_path@,
            ImportFileStatus::Skipped,
            None,
            Some("duplicate_in_request"@),
            Some("Duplicate file path in this import request."@),
            Some("skip_duplicate"@),
        ) && record_is(
            o.record,
            source_path@,
            None,
            ImportFileStatus::Skipped,
            Some("duplicate_in_request"@),
            Some("Duplicate file path in this import request."@),
            None,
            None,
            None,
            None,
            Some("skip_duplicate"@),
        )),
        !old(tracker).paths().contains(lower(source_path@)) ==> (r matches PathCheck::Fresh {
            path_key,
        } && path_key@ == lower(source_path@)),
{
    let path_key = to_ascii_lower(source_path);
    let key_copy = path_key.clone();
    if tracker.insert_path(key_copy) {
        return PathCheck::Fresh { path_key };
    }
    let message = "Duplicate file path in this import request.";
    PathCheck::Duplicate(
        FileOutcome {
            result: ImportFileResult {
                source_path: String::from_str(source_path),
                status: ImportFileStatus::Skipped,
                format: None,
                title: None,
                authors: Vec::new(),
                language: None,
                published_at: None,
                item_id: None,
                index_work_unit_id: None,
                error_code: Some(String::from_str("duplicate_in_request")),
                error_message: Some(String::from_str(message)),
                dedupe_decision: Some(String::from_str("skip_duplicate")),
            },
            record: make_record(
                source_path,
                None,
                ImportFileStatus::Skipped,
                Some("duplicate_in_request"),
                Some(message),
                None,
                None,
                None,
                None,
                Some("skip_duplicate"),
            ),
        },
    )
}

/// A file that passed every check and is ready to be stored.
pub struct PendingImport {
    pub source_path: String,
    pub path_key: String,
    pub format: ImportFormat,
    pub metadata: ParsedMetadata,
    pub precheck_key: String,
    pub content_hash: String,
    pub size: u64,
    pub dedupe_decision: Option<String>,
    pub dry_run: bool,
}

pub enum FileAnalysis {
    /// The file's outcome is settled without storing anything.
    Done(FileOutcome),
    /// The file is to be stored (or, in a dry run, only counted).
    Store(PendingImport),
    /// The file repeats content already imported in this job, and its metadata is to be
    /// merged into the item stored for that content (in a dry run, nothing is changed).
    Merge(PendingImport),
}

/// Whether content of this size and digest counts as already imported in this job.
pub open spec fn duplicate_content(
    tracker: DedupeTracker,
    precheck_key: Seq<char>,
    size: u64,
    hash: Seq<char>,
) -> bool {
    (tracker.precheck_keys().contains(precheck_key) || tracker.sizes().contains(size))
        && tracker.hashes().contains((size, hash))
}

pub open spec fn duplicate_skipped_message() -> Seq<char> {
    "Duplicate content detected and skipped."@
}

/// Decides what becomes of a readable file: unsupported, corrupt, a duplicate of content
/// already seen in this job (skipped, or merged into the item stored for that content), or
/// to be stored.
pub fn analyze_file(
    tracker: &mut DedupeTracker,
    source_path: String,
    path_key: String,
    info: &PathInfo,
    bytes: &[u8],
    modified_seconds: u64,
    duplicate_mode: BulkDuplicateMode,
    dry_run: bool,
) -> (r: FileAnalysis)
    ensures
        ({
            let format = detected_format(*info, bytes@);
            let size = bytes@.len() as u64;
            let key = precheck_key_of(
                info.file_name.deep_view(),
                bytes@.len() as nat,
                modified_seconds as nat,
            );
            let hash = hex_lower(sha256_of(bytes@));
            let dup = duplicate_content(*old(tracker), key, size, hash);
            let f = format->0;
            &&& format is None ==> final(tracker).same_as(*old(tracker)) && (r matches FileAnalysis::Done(o)
                && bare_result(
                o.result,
                source_path@,
                ImportFileStatus::Failed,
                None,
                Some("unsupported_format"@),
                Some("Unsupported file format."@),
                None,
            ) && record_is(
                o.record,
                source_path@,
                None,
                ImportFileStatus::Failed,
                Some("unsupported_format"@),
                Some("Unsupported file format."@),
                None,
                None,
                None,
                None,
                None,
            ))
            &&& format is Some && !content_readable(format->0, bytes@) ==> final(tracker).same_as(
                *old(tracker),
            ) && (r matches FileAnalysis::Done(o) && bare_result(
                o.result,
                source_path@,
                ImportFileStatus::Failed,
                Some(f),
                Some("corrupt_file"@),
                Some(corrupt_message(f)),
                None,
            ) && record_is(
                o.record,
                source_path@,
                Some(f),
                ImportFileStatus::Failed,
                Some("corrupt_file"@),
                Some(corrupt_message(f)),
                None,
                None,
                None,
                None,
                None,
            ))
            &&& format is Some && content_readable(format->0, bytes@) && dup
                && duplicate_mode == BulkDuplicateMode::SkipDuplicate ==> final(tracker).tracked_from(
                *old(tracker),
                path_key@,
                key,
                size,
                hash,
            ) && (r matches FileAnalysis::Done(o) && o.result.source_path@ == source_path@
                && o.result.status == ImportFileStatus::Skipped && o.result.format == Some(f)
                && o.result.item_id is None && o.result.index_work_unit_id is None
                && o.result.title.deep_view() == Some(title_from_stem(info.file_stem.deep_view()))
                && o.result.error_code.deep_view() == Some("duplicate_content"@)
                && o.result.error_message.deep_view() == Some(duplicate_skipped_message())
                && o.result.dedupe_decision.deep_view() == Some("skip_duplicate"@)
                && record_is(
                o.record,
                source_path@,
                Some(f),
                ImportFileStatus::Skipped,
                Some("duplicate_content"@),
                Some(duplicate_skipped_message()),
                None,
                None,
                Some(key),
                Some(hash),
                Some("skip_duplicate"@),
            ))
            &&& format is Some && content_readable(format->0, bytes@) && dup && duplicate_mode
                == BulkDuplicateMode::MergeMetadata ==> final(tracker).same_as(*old(tracker))
                && (r matches FileAnalysis::Merge(p) && p.source_path@ == source_path@
                && p.path_key@ == path_key@ && p.format == f && metadata_from_path(p.metadata, *info)
                && p.precheck_key@ == key && p.content_hash@ == hash && p.size == size
                && p.dedupe_decision.deep_view() == Some("merge_metadata"@) && p.dry_run == dry_run)
            &&& format is Some && content_readable(format->0, bytes@) && (!dup || duplicate_mode
                == BulkDuplicateMode::ForceImport) ==> final(tracker).same_as(*old(tracker))
                && (r matches FileAnalysis::Store(p) && p.source_path@ == source_path@
                && p.path_key@ == path_key@ && p.format == f && metadata_from_path(p.metadata, *info)
                && p.precheck_key@ == key && p.content_hash@ == hash && p.size == size
                && p.dedupe_decision.deep_view() == (if dup {
                Some("force_import"@)
            } else {
                None
            }) && p.dry_run == dry_run)
        }),
{
    let detected = detect_format(info, bytes);
    let format = match detected {
        Some(f) => f,
        None => {
            let message = "Unsupported file format.";
            let record = make_record(
                source_path.as_str(),
                None,
                ImportFileStatus::Failed,
                Some("unsupported_format"),
                Some(message),
                None,
                None,
                None,
                None,
                None,
            );
            return FileAnalysis::Done(
                FileOutcome {
                    result: make_failed_result(
                        source_path,
                        "unsupported_format",
                        String::from_str(message),
                    ),
                    record,
                },
            );
        },
    };
    let parsed = match format {
        ImportFormat::Pdf => parse_pdf(info, bytes),
        ImportFormat::Epub => parse_epub(info, bytes),
        ImportFormat::Mobi => parse_mobi(info, bytes),
    };
    let metadata = match parsed {
        Ok(m) => m,
        Err(message) => {
            let record = make_record(
                source_path.as_str(),
                Some(format),
                ImportFileStatus::Failed,
                Some("corrupt_file"),
                Some(message.as_str()),
                None,
                None,
                None,
                None,
                None,
            );
            let mut failed = make_failed_result(source_path, "corrupt_file", message);
            failed.format = Some(format);
            return FileAnalysis::Done(FileOutcome { result: failed, record });
        },
    };
    let size = bytes.len() as u64;
    let precheck_key = build_precheck_key(info, size, modified_seconds);
    let content_hash = sha256_hex(bytes);
    let is_duplicate_candidate = tracker.has_precheck_key(precheck_key.as_str()) || tracker.has_size(
        size,
    );
    let duplicate = is_duplicate_candidate && tracker.has_duplicate_hash(
        size,
        content_hash.as_str(),
    );
    if duplicate && duplicate_mode == BulkDuplicateMode::SkipDuplicate {
        let message = "Duplicate content detected and skipped.";
        let decision = "skip_duplicate";
        let record = make_record(
            source_path.as_str(),
            Some(format),
            ImportFileStatus::Skipped,
            Some("duplicate_content"),
            Some(message),
            None,
            None,
            Some(precheck_key.as_str()),
            Some(content_hash.as_str()),
            Some(decision),
        );
        tracker.track(path_key, precheck_key, size, content_hash);
        return FileAnalysis::Done(
            FileOutcome {
                result: ImportFileResult {
                    source_path,
                    status: ImportFileStatus::Skipped,
                    format: Some(format),
                    title: Some(metadata.title),
                    authors: metadata.authors,
                    language: metadata.language,
                    published_at: metadata.published_at,
                    item_id: None,
                    index_work_unit_id: None,
                    error_code: Some(String::from_str("duplicate_content")),
                    error_message: Some(String::from_str(message)),
                    dedupe_decision: Some(String::from_str(decision)),
                },
                record,
            },
        );
    }
    if duplicate && duplicate_mode == BulkDuplicateMode::MergeMetadata {
        return FileAnalysis::Merge(
            PendingImport {
                source_path,
                path_key,
                format,
                metadata,
                precheck_key,
                content_hash,
                size,
                dedupe_decision: Some(String::from_str("merge_metadata")),
                dry_run,
            },
        );
    }
    let dedupe_decision = if duplicate {
        Some(String::from_str("force_import"))
    } else {
        None
    };
    FileAnalysis::Store(
        PendingImport {
            source_path,
            path_key,
            format,
            metadata,
            precheck_key,
            content_hash,
            size,
            dedupe_decision,
            dry_run,
        },
    )
}

/// What storing a pending file gave.
pub enum StoreResult {
    /// The item row and its index work unit were written.
    Stored { item_id: i64, index_work_unit_id: i64 },
    /// The library already holds an item for this path.
    AlreadyImported,
}

/// Settles a pending file once storing it was attempted (`None` for a dry run, where
/// nothing is stored).
pub fn complete_import(tracker: &mut DedupeTracker, pending: PendingImport, store: Option<
    StoreResult,
>) -> (o: FileOutcome)
    requires
        pending.dry_run == store.is_none(),
    ensures
        pending.dry_run ==> o.result.item_id is None && o.result.index_work_unit_id is None
            && o.record.library_item_id is None && o.record.index_work_unit_id is None,
        final(tracker).tracked_from(
            *old(tracker),
            pending.path_key@,
            pending.precheck_key@,
            pending.size,
            pending.content_hash@,
        ),
        store matches Some(StoreResult::AlreadyImported) ==> metadata_result(
            o.result,
            pending.source_path@,
            ImportFileStatus::Skipped,
            pending.format,
            pending.metadata,
            None,
            None,
            Some("duplicate_existing"@),
            Some("File already imported in this library."@),
            Some("skip_duplicate"@),
        ) && record_is(
            o.record,
            pending.source_path@,
            Some(pending.format),
            ImportFileStatus::Skipped,
            Some("duplicate_existing"@),
            Some("File already imported in this library."@),
            None,
            None,
            Some(pending.precheck_key@),
            Some(pending.content_hash@),
            Some("skip_duplicate"@),
        ),
        store matches Some(StoreResult::Stored { item_id, index_work_unit_id }) ==> metadata_result(
            o.result,
            pending.source_path@,
            ImportFileStatus::Success,
            pending.format,
            pending.metadata,
            Some(item_id),
            Some(index_work_unit_id),
            None,
            None,
            pending.dedupe_decision.deep_view(),
        ) && record_is(
            o.record,
            pending.source_path@,
            Some(pending.format),
            ImportFileStatus::Success,
            None,
            None,
            Some(item_id),
            Some(index_work_unit_id),
            Some(pending.precheck_key@),
            Some(pending.content_hash@),
            pending.dedupe_decision.deep_view(),
        ),
        store is None ==> metadata_result(
            o.result,
            pending.source_path@,
            ImportFileStatus::Success,
            pending.format,
            pending.metadata,
            None,
            None,
            None,
            None,
            pending.dedupe_decision.deep_view(),
        ) && record_is(
            o.record,
            pending.source_path@,
            Some(pending.format),
            ImportFileStatus::Success,
            None,
            None,
            None,
            None,
            Some(pending.precheck_key@),
            Some(pending.content_hash@),
            pending.dedupe_decision.deep_view(),
        ),
{
    let PendingImport {
        source_path,
        path_key,
        format,
        metadata,
        precheck_key,
        content_hash,
        size,
        dedupe_decision,
        dry_run,
    } = pending;
    let (item_id, index_work_unit_id) = match store {
        Some(StoreResult::AlreadyImported) => {
            let message = "File already imported in this library.";
            let record = make_record(
                source_path.as_str(),
                Some(format),
                ImportFileStatus::Skipped,
                Some("duplicate_existing"),
                Some(message),
                None,
                None,
                Some(precheck_key.as_str()),
                Some(content_hash.as_str()),
                Some("skip_duplicate"),
            );
            tracker.track(path_key, precheck_key, size, content_hash);
            return FileOutcome {
                result: ImportFileResult {
                    source_path,
                    status: ImportFileStatus::Skipped,
                    format: Some(format),
                    title: Some(metadata.title),
                    authors: metadata.authors,
                    language: metadata.language,
                    published_at: metadata.published_at,
                    item_id: None,
                    index_work_unit_id: None,
                    error_code: Some(String::from_str("duplicate_existing")),
                    error_message: Some(String::from_str(message)),
                    dedupe_decision: Some(String::from_str("skip_duplicate")),
                },
                record,
            };
        },
        Some(StoreResult::Stored { item_id, index_work_unit_id }) => (
            Some(item_id),
            Some(index_work_unit_id),
        ),
        None => (None, None),
    };
    let record = ImportJobItemRecord {
        source_path: source_path.clone(),
        format: Some(format),
        status: ImportFileStatus::Success,
        error_code: None,
        error_message: None,
        library_item_id: item_id,
        index_work_unit_id,
        precheck_key: Some(precheck_key.clone()),
        content_hash: Some(content_hash.clone()),
        dedupe_decision: dedupe_decision.clone(),
    };
    tracker.track(path_key, precheck_key, size, content_hash);
    FileOutcome {
        result: ImportFileResult {
            source_path,
            status: ImportFileStatus::Success,
            format: Some(format),
            title: Some(metadata.title),
            authors: metadata.authors,
            language: metadata.language,
            published_at: metadata.published_at,
            item_id,
            index_work_unit_id,
            error_code: None,
            error_message: None,
            dedupe_decision,
        },
        record,
    }
}

/// The outcome of a file whose metadata was merged into the item `item_id` stored for the
/// same content, with the index refresh `index_work_unit_id` queued for it. A dry run
/// stores nothing, so it names neither.
pub fn complete_merge(
    tracker: &mut DedupeTracker,
    pending: PendingImport,
    item_id: Option<i64>,
    index_work_unit_id: Option<i64>,
) -> (o: FileOutcome)
    requires
        pending.dry_run ==> item_id is None && index_work_unit_id is None,
    ensures
        pending.dry_run ==> o.result.item_id is None && o.result.index_work_unit_id is None
            && o.record.library_item_id is None && o.record.index_work_unit_id is None,
        final(tracker).tracked_from(
            *old(tracker),
            pending.path_key@,
            pending.precheck_key@,
            pending.size,
            pending.content_hash@,
        ),
        metadata_result(
            o.result,
            pending.source_path@,
            ImportFileStatus::Success,
            pending.format,
            pending.metadata,
            item_id,
            index_work_unit_id,
            None,
            None,
            Some("merge_metadata"@),
        ),
        record_is(
            o.record,
            pending.source_path@,
            Some(pending.format),
            ImportFileStatus::Success,
            None,
            None,
            item_id,
            index_work_unit_id,
            Some(pending.precheck_key@),
            Some(pending.content_hash@),
            Some("merge_metadata"@),
        ),
{
    let PendingImport {
        source_path,
        path_key,
        format,
        metadata,
        precheck_key,
        content_hash,
        size,
        dedupe_decision: _,
        dry_run: _,
    } = pending;
    let record = make_record(
        source_path.as_str(),
        Some(format),
        ImportFileStatus::Success,
        None,
        None,
        item_id,
        index_work_unit_id,
        Some(precheck_key.as_str()),
        Some(content_hash.as_str()),
        Some("merge_metadata"),
    );
    tracker.track(path_key, precheck_key, size, content_hash);
    FileOutcome {
        result: ImportFileResult {
            source_path,
            status: ImportFileStatus::Success,
            format: Some(format),
            title: Some(metadata.title),
            authors: metadata.authors,
            language: metadata.language,
            published_at: metadata.published_at,
            item_id,
            index_work_unit_id,
            error_code: None,
            error_message: None,
            dedupe_decision: Some(String::from_str("merge_metadata")),
        },
        record,
    }
}

/// The title kept when two copies of the same content are merged: the more descriptive
/// (longer) one, the stored one on a tie.
pub open spec fn merged_import_title(stored: Seq<char>, incoming: Seq<char>) -> Seq<char> {
    if incoming.len() > stored.len() {
        incoming
    } else {
        stored
    }
}

/// The metadata of a stored item once the metadata of another copy of its content is merged
/// in: the more descriptive title, and each other field from the stored item unless it has
/// none.
pub fn merge_import_metadata(stored: ParsedMetadata, incoming: &ParsedMetadata) -> (m: ParsedMetadata)
    ensures
        m.title@ == merged_import_title(stored.title@, incoming.title@),
        m.authors@ == if stored.authors@.len() == 0 {
            incoming.authors@
        } else {
            stored.authors@
        },
        m.language == if stored.language is Some {
            stored.language
        } else {
            incoming.language
        },
        m.published_at == if stored.published_at is Some {
            stored.published_at
        } else {
            incoming.published_at
        },
{
    let title = if incoming.title.unicode_len() > stored.title.unicode_len() {
        incoming.title.clone()
    } else {
        stored.title
    };
    let authors = if stored.authors.len() == 0 {
        copy_strings(&incoming.authors)
    } else {
        stored.authors
    };
    let language = match stored.language {
        Some(l) => Some(l),
        None => copy_opt_string(&incoming.language),
    };
    let published_at = match stored.published_at {
        Some(p) => Some(p),
        None => copy_opt_string(&incoming.published_at),
    };
    ParsedMetadata { title, authors, language, published_at }
}

// ---------------------------------------------------------------------------------------
// Jobs
// ---------------------------------------------------------------------------------------
/// How many of the results have the given status.
pub open spec fn count_status(items: Seq<ImportFileResult>, status: ImportFileStatus) -> nat
    decreases items.len(),
{
    if items.len() == 0 {
        0
    } else {
        count_status(items.drop_last(), status) + if items.last().status == status {
            1nat
        } else {
            0nat
        }
    }
}

/// A job failed when nothing succeeded and something failed; it partly succeeded when
/// something failed; otherwise it succeeded.
pub open spec fn job_status(success: nat, failed: nat) -> Seq<char> {
    if success == 0 && failed > 0 {
        "failed"@
    } else if failed > 0 {
        "partial_success"@
    } else {
        "success"@
    }
}

/// The job status depends only on whether anything succeeded and whether anything failed:
/// a job fails exactly when nothing succeeded and something failed, partly succeeds whenever
/// something succeeded and something failed (however the two counts compare), and succeeds
/// when nothing failed; the three statuses are distinct.
pub proof fn lemma_job_status_rule(success: nat, failed: nat)
    ensures
        (job_status(success, failed) == "failed"@) <==> (success == 0 && failed > 0),
        success > 0 && failed > 0 ==> job_status(success, failed) == "partial_success"@,
        failed == 0 ==> job_status(success, failed) == "success"@,
        "failed"@ != "partial_success"@,
        "failed"@ != "success"@,
        "partial_success"@ != "success"@,
{
    reveal_strlit("failed");
    reveal_strlit("partial_success");
    reveal_strlit("success");
    assert("failed"@[0] != "partial_success"@[0]);
    assert("failed"@[0] != "success"@[0]);
    assert("partial_success"@[0] != "success"@[0]);
}

/// Whether every result reached an end state: succeeded, failed or skipped.
pub open spec fn all_settled(items: Seq<ImportFileResult>) -> bool {
    forall|i: int|
        0 <= i < items.len() ==> match #[trigger] items[i].status {
            ImportFileStatus::Success | ImportFileStatus::Failed | ImportFileStatus::Skipped => true,
            _ => false,
        }
}

/// Each result has exactly one status: the five per-status counts add up to the number of
/// results, and when every result is settled the succeeded, failed and skipped counts alone do.
pub proof fn lemma_status_counts_partition(items: Seq<ImportFileResult>)
    ensures
        count_status(items, ImportFileStatus::Queued) + count_status(items, ImportFileStatus::Running)
            + count_status(items, ImportFileStatus::Success) + count_status(
            items,
            ImportFileStatus::Failed,
        ) + count_status(items, ImportFileStatus::Skipped) == items.len(),
        count_status(items, ImportFileStatus::Success) + count_status(items, ImportFileStatus::Failed)
            + count_status(items, ImportFileStatus::Skipped) <= items.len(),
        all_settled(items) ==> count_status(items, ImportFileStatus::Success) + count_status(
            items,
            ImportFileStatus::Failed,
        ) + count_status(items, ImportFileStatus::Skipped) == items.len(),
    decreases items.len(),
{
    if items.len() > 0 {
        lemma_status_counts_partition(items.drop_last());
        if all_settled(items) {
            assert forall|i: int| 0 <= i < items.drop_last().len() implies match #[trigger] items.drop_last()[i].status {
                ImportFileStatus::Success | ImportFileStatus::Failed | ImportFileStatus::Skipped => true,
                _ => false,
            } by {
                assert(items.drop_last()[i] == items[i]);
            }
            assert(all_settled(items.drop_last()));
            let last = items[items.len() - 1];
            assert(match last.status {
                ImportFileStatus::Success | ImportFileStatus::Failed | ImportFileStatus::Skipped => true,
                _ => false,
            });
        }
    }
}

fn count_with_status(items: &Vec<ImportFileResult>, status: ImportFileStatus) -> (n: usize)
    ensures
        n == count_status(items@, status),
{
    let mut n: usize = 0;
    let mut i: usize = 0;
    while i < items.len()
        invariant
            i <= items@.len(),
            n == count_status(items@.take(i as int), status),
            n <= i,
        decreases items@.len() - i,
    {
        assert(items@.take(i as int + 1).drop_last() =~= items@.take(i as int));
        if items[i].status == status {
            n += 1;
        }
        i += 1;
    }
    assert(items@.take(items@.len() as int) =~= items@);
    n
}

/// An import needs at least one path or one scan diagnostic.
pub fn check_import_candidates(paths: &Vec<String>, diagnostics: &Vec<ImportFileResult>) -> (r:
    Result<(), String>)
    ensures
        r is Ok <==> (paths@.len() > 0 || diagnostics@.len() > 0),
        r matches Err(e) ==> e@ == "No import candidates found."@,
{
    if paths.len() == 0 && diagnostics.len() == 0 {
        return Err(String::from_str("No import candidates found."));
    }
    Ok(())
}

/// The log row written for a scan diagnostic.
pub fn diagnostic_record(d: &ImportFileResult) -> (rec: ImportJobItemRecord)
    ensures
        rec.source_path@ == d.source_path@,
        rec.format is None,
        rec.status == d.status,
        rec.error_code.deep_view() == d.error_code.deep_view(),
        rec.error_message.deep_view() == d.error_message.deep_view(),
        rec.library_item_id is None,
        rec.index_work_unit_id is None,
        rec.precheck_key is None,
        rec.content_hash is None,
        rec.dedupe_decision is None,
{
    ImportJobItemRecord {
        source_path: d.source_path.clone(),
        format: None,
        status: d.status,
        error_code: d.error_code.clone(),
        error_message: d.error_message.clone(),
        library_item_id: None,
        index_work_unit_id: None,
        precheck_key: None,
        content_hash: None,
        dedupe_decision: None,
    }
}

/// The summary of a finished job: per-status counts, the job status, and a scanned count
/// that is never below the number of processed files.
pub fn summarize_import_job(job_id: i64, items: Vec<ImportFileResult>, scanned_count: usize) -> (r:
    ImportJobResult)
    ensures
        r.job_id == job_id,
        r.items@ == items@,
        r.processed_count == items@.len(),
        r.success_count == count_status(items@, ImportFileStatus::Success),
        r.failed_count == count_status(items@, ImportFileStatus::Failed),
        r.skipped_count == count_status(items@, ImportFileStatus::Skipped),
        r.status@ == job_status(r.success_count as nat, r.failed_count as nat),
        r.success_count + r.failed_count + r.skipped_count + count_status(
            items@,
            ImportFileStatus::Queued,
        ) + count_status(items@, ImportFileStatus::Running) == r.processed_count,
        all_settled(items@) ==> r.success_count + r.failed_count + r.skipped_count
            == r.processed_count,
        (r.status@ == "failed"@) <==> (r.success_count == 0 && r.failed_count > 0),
        r.success_count > 0 && r.failed_count > 0 ==> r.status@ == "partial_success"@,
        r.failed_count == 0 ==> r.status@ == "success"@,
        r.scanned_count == if scanned_count >= items@.len() {
            scanned_count
        } else {
            items@.len() as usize
        },
{
    let success_count = count_with_status(&items, ImportFileStatus::Success);
    let failed_count = count_with_status(&items, ImportFileStatus::Failed);
    let skipped_count = count_with_status(&items, ImportFileStatus::Skipped);
    let processed_count = items.len();
    proof {
        lemma_status_counts_partition(items@);
        lemma_job_status_rule(success_count as nat, failed_count as nat);
    }
    let status = if success_count == 0 && failed_count > 0 {
        "failed"
    } else if failed_count > 0 {
        "partial_success"
    } else {
        "success"
    };
    ImportJobResult {
        job_id,
        status: String::from_str(status),
        scanned_count: if scanned_count >= processed_count {
            scanned_count
        } else {
            processed_count
        },
        processed_count,
        success_count,
        failed_count,
        skipped_count,
        items,
    }
}

/// Options for an import of explicitly chosen files; at least one path is needed.
pub fn single_import_options(input: &StartImportInput) -> (r: Result<ImportJobOptions, String>)
    ensures
        r is Ok <==> input.paths@.len() > 0,
        r matches Err(e) ==> e@ == "Select at least one file to import."@,
        r matches Ok(o) ==> o.import_mode@ == "single"@ && o.duplicate_mode
            == BulkDuplicateMode::SkipDuplicate && !o.dry_run && o.root_path is None
            && o.scanned_count == input.paths@.len(),
{
    if input.paths.len() == 0 {
        return Err(String::from_str("Select at least one file to import."));
    }
    Ok(
        ImportJobOptions {
            import_mode: "single",
            duplicate_mode: BulkDuplicateMode::SkipDuplicate,
            dry_run: false,
            root_path: None,
            scanned_count: input.paths.len(),
        },
    )
}

/// Options for a folder import.
pub fn bulk_import_options(input: &StartBulkImportInput, root_path: String, scanned_count: usize) -> (r:
    ImportJobOptions)
    ensures
        r.import_mode@ == "bulk"@,
        r.duplicate_mode == input.duplicate_mode,
        r.dry_run == input.dry_run,
        r.root_path == Some(root_path),
        r.scanned_count == scanned_count,
{
    ImportJobOptions {
        import_mode: "bulk",
        duplicate_mode: input.duplicate_mode,
        dry_run: input.dry_run,
        root_path: Some(root_path),
        scanned_count,
    }
}

/// Whether a scan entry counts as scanned: files, symbolic links and unreadable entries do,
/// directories do not.
pub open spec fn entry_scanned(e: ScanEntry) -> bool {
    !(e is Directory)
}

pub open spec fn scanned_entries(entries: Seq<ScanEntry>) -> nat
    decreases entries.len(),
{
    if entries.len() == 0 {
        0
    } else {
        scanned_entries(entries.drop_last()) + if entry_scanned(entries.last()) {
            1nat
        } else {
            0nat
        }
    }
}

/// The regular files met by a scan, in scan order.
pub open spec fn scanned_files(entries: Seq<ScanEntry>) -> Seq<Seq<char>>
    decreases entries.len(),
{
    if entries.len() == 0 {
        Seq::empty()
    } else {
        let rest = scanned_files(entries.drop_last());
        match entries.last() {
            ScanEntry::File(p) => rest.push(p@),
            _ => rest,
        }
    }
}

/// The diagnostic a scan entry yields, if any: broken links and unreadable entries do.
pub open spec fn entry_diagnostic(e: ScanEntry, root: Seq<char>) -> Option<(Seq<char>, Seq<char>, Seq<char>)> {
    match e {
        ScanEntry::Symlink { path, broken } => if broken {
            Some((path@, "broken_symlink"@, "Broken symlink encountered during bulk import scan."@))
        } else {
            None
        },
        ScanEntry::Error { at } => Some(
            (
                match at {
                    Some(p) => p@,
                    None => root,
                },
                "walk_error"@,
                "Unable to access one or more paths during bulk scan."@,
            ),
        ),
        _ => None,
    }
}

/// The (path, code, message) of every diagnostic a scan yields, in scan order.
pub open spec fn scan_diagnostics(entries: Seq<ScanEntry>, root: Seq<char>) -> Seq<(Seq<char>, Seq<char>, Seq<char>)>
    decreases entries.len(),
{
    if entries.len() == 0 {
        Seq::empty()
    } else {
        let rest = scan_diagnostics(entries.drop_last(), root);
        match entry_diagnostic(entries.last(), root) {
            Some(d) => rest.push(d),
            None => rest,
        }
    }
}

pub open spec fn diagnostic_matches(r: ImportFileResult, d: (Seq<char>, Seq<char>, Seq<char>)) -> bool {
    bare_result(r, d.0, ImportFileStatus::Failed, None, Some(d.1), Some(d.2), None)
}

proof fn lemma_scanned_entries_bounded(entries: Seq<ScanEntry>)
    ensures
        scanned_entries(entries) <= entries.len(),
    decreases entries.len(),
{
    if entries.len() > 0 {
        lemma_scanned_entries_bounded(entries.drop_last());
    }
}

/// Turns the entries of a folder walk into import candidates (the regular files, sorted),
/// diagnostics (broken links, unreadable entries) and a scanned count. The folder must
/// exist and be a directory.
pub fn summarize_bulk_scan(
    root_path: &str,
    root_exists: bool,
    root_is_dir: bool,
    entries: Vec<ScanEntry>,
) -> (r: Result<BulkDiscovery, String>)
    ensures
        !root_exists ==> (r matches Err(e) && e@ == "Selected folder does not exist."@),
        root_exists && !root_is_dir ==> (r matches Err(e) && e@ == "Selected path must be a folder."@),
        root_exists && root_is_dir ==> (r matches Ok(d) && d.scanned_count == scanned_entries(entries@)
            && strings_sorted(d.candidates.deep_view())
            && d.candidates.deep_view().to_multiset() == scanned_files(entries@).to_multiset()
            && d.diagnostics@.len() == scan_diagnostics(entries@, root_path@).len()
            && forall|k: int| 0 <= k < d.diagnostics@.len() ==> diagnostic_matches(
                #[trigger] d.diagnostics@[k],
                scan_diagnostics(entries@, root_path@)[k],
            )),
{
    if !root_exists {
        return Err(String::from_str("Selected folder does not exist."));
    }
    if !root_is_dir {
        return Err(String::from_str("Selected path must be a folder."));
    }
    let mut candidates: Vec<String> = Vec::new();
    let mut diagnostics: Vec<ImportFileResult> = Vec::new();
    let mut scanned_count: usize = 0;
    let mut i: usize = 0;
    while i < entries.len()
        invariant
            i <= entries@.len(),
            scanned_count == scanned_entries(entries@.take(i as int)),
            scanned_count <= i,
            candidates.deep_view() == scanned_files(entries@.take(i as int)),
            diagnostics@.len() == scan_diagnostics(entries@.take(i as int), root_path@).len(),
            forall|k: int| 0 <= k < diagnostics@.len() ==> diagnostic_matches(
                #[trigger] diagnostics@[k],
                scan_diagnostics(entries@.take(i as int), root_path@)[k],
            ),
        decreases entries@.len() - i,
    {
        let ghost prev = entries@.take(i as int);
        assert(entries@.take(i as int + 1).drop_last() =~= prev);
        let ghost diags_before = diagnostics@;
        match &entries[i] {
            ScanEntry::File(path) => {
                scanned_count += 1;
                candidates.push(path.clone());
                assert(candidates.deep_view() =~= scanned_files(prev).push(path@));
            },
            ScanEntry::Symlink { path, broken } => {
                scanned_count += 1;
                if *broken {
                    diagnostics.push(
                        make_failed_result(
                            path.clone(),
                            "broken_symlink",
                            String::from_str("Broken symlink encountered during bulk import scan."),
                        ),
                    );
                }
            },
            ScanEntry::Directory => {},
            ScanEntry::Error { at } => {
                scanned_count += 1;
                let source = match at {
                    Some(p) => p.clone(),
                    None => String::from_str(root_path),
                };
                diagnostics.push(
                    make_failed_result(
                        source,
                        "walk_error",
                        String::from_str("Unable to access one or more paths during bulk scan."),
                    ),
                );
            },
        }
        proof {
            let next = entries@.take(i as int + 1);
            assert forall|k: int| 0 <= k < diagnostics@.len() implies diagnostic_matches(
                #[trigger] diagnostics@[k],
                scan_diagnostics(next, root_path@)[k],
            ) by {
                if k < diags_before.len() {
                    assert(diagnostics@[k] == diags_before[k]);
                }
            }
        }
        i += 1;
    }
    assert(entries@.take(entries@.len() as int) =~= entries@);
    let sorted = sort_strings(candidates);
    Ok(BulkDiscovery { candidates: sorted, diagnostics, scanned_count })
}

} // verus!
