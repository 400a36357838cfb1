//! The search index work queue: how many units a pass claims and which, the status a unit
//! ends in, the text each item is indexed under, the counts a pass reports, and the
//! decisions and diagnostics of the index health check.
use crate::json::{parse_string_list_or_empty, string_list_or_empty};
use crate::text::{decimal, join, join_strings, push_decimal, trim, trim_str};
use vstd::prelude::*;
use vstd::string::*;

verus! {

pub struct ProcessIndexWorkQueueInput {
    pub batch_size: Option<u32>,
    pub include_failed: Option<bool>,
}

#[derive(Debug)]
pub struct ProcessIndexWorkQueueResult {
    pub processed_count: u32,
    pub success_count: u32,
    pub failed_count: u32,
}

pub struct RetryFailedIndexWorkUnitsInput {
    pub limit: Option<u32>,
}

#[derive(Debug)]
pub struct RetryFailedIndexWorkUnitsResult {
    pub marked_retry_count: u32,
}

#[derive(Debug)]
pub struct IndexQueueStatus {
    pub queued_count: i64,
    pub running_count: i64,
    pub success_count: i64,
    pub failed_count: i64,
    pub retry_count: i64,
    pub recovered_count: i64,
    pub index_root: String,
}

#[derive(Debug)]
pub struct EnsureIndexHealthResult {
    pub repair_performed: bool,
    pub rebuild_queued_count: u32,
    pub index_root: String,
    pub diagnostic: String,
}

/// A library item as the indexer reads it; `authors` holds a JSON list of strings.
pub struct IndexableItemRow {
    pub id: i64,
    pub title: String,
    pub authors: String,
    pub language: Option<String>,
    pub published_at: Option<String>,
    pub source_path: String,
}

/// The fields an item is indexed under.
#[derive(Debug)]
pub struct IndexDocument {
    pub library_item_id: u64,
    pub title: String,
    pub authors: String,
    pub language: Option<String>,
    pub published_at: Option<String>,
    pub source_path: String,
    pub content: String,
}

// ---------------------------------------------------------------------------------------
// Claiming and finishing work units
// ---------------------------------------------------------------------------------------
/// A pass claims 50 units unless told otherwise, and never fewer than 1 or more than 200.
pub open spec fn batch_size_of(batch_size: Option<u32>) -> int {
    let b = match batch_size {
        Some(b) => b as int,
        None => 50,
    };
    if b < 1 {
        1
    } else if b > 200 {
        200
    } else {
        b
    }
}

pub fn normalize_batch_size(batch_size: Option<u32>) -> (r: i64)
    ensures
        r == batch_size_of(batch_size),
{
    let b = match batch_size {
        Some(b) => b,
        None => 50,
    };
    if b < 1 {
        1
    } else if b > 200 {
        200
    } else {
        b as i64
    }
}

pub open spec fn claim_query_of(include_failed: bool) -> Seq<char> {
    if include_failed {
        "SELECT id, library_item_id, status FROM index_work_units WHERE status IN ('queued', 'retry', 'failed') ORDER BY id ASC LIMIT ?"@
    } else {
        "SELECT id, library_item_id, status FROM index_work_units WHERE status IN ('queued', 'retry') ORDER BY id ASC LIMIT ?"@
    }
}

/// The query that picks the units a pass claims: queued and retried units, oldest first,
/// and failed ones too when asked.
pub fn claim_query(include_failed: bool) -> (q: &'static str)
    ensures
        q@ == claim_query_of(include_failed),
{
    if include_failed {
        "SELECT id, library_item_id, status FROM index_work_units WHERE status IN ('queued', 'retry', 'failed') ORDER BY id ASC LIMIT ?"
    } else {
        "SELECT id, library_item_id, status FROM index_work_units WHERE status IN ('queued', 'retry') ORDER BY id ASC LIMIT ?"
    }
}

/// A work unit as a pass reads it.
#[derive(Debug)]
pub struct WorkUnitRow {
    pub id: i64,
    pub library_item_id: i64,
    pub status: String,
}

/// The candidates whose claiming update changed exactly one row, in order: another pass
/// that got to a unit first leaves its update changing nothing.
pub open spec fn claimed_of(units: Seq<WorkUnitRow>, rows_affected: Seq<u64>) -> Seq<WorkUnitRow>
    decreases units.len(),
{
    if units.len() == 0 || rows_affected.len() == 0 {
        Seq::empty()
    } else {
        let rest = claimed_of(units.drop_last(), rows_affected.drop_last());
        if rows_affected.last() == 1 {
            rest.push(units.last())
        } else {
            rest
        }
    }
}

/// Keeps the candidates that were claimed, given how many rows each one's claiming update
/// changed.
pub fn claimed_units(candidates: &Vec<WorkUnitRow>, rows_affected: &Vec<u64>) -> (r: Vec<
    WorkUnitRow,
>)
    requires
        candidates@.len() == rows_affected@.len(),
    ensures
        r@ == claimed_of(candidates@, rows_affected@),
{
    let ghost all = candidates@;
    let mut out: Vec<WorkUnitRow> = Vec::new();
    let mut i: usize = 0;
    while i < candidates.len()
        invariant
            all == candidates@,
            all.len() == rows_affected@.len(),
            i <= all.len(),
            out@ == claimed_of(all.take(i as int), rows_affected@.take(i as int)),
        decreases all.len() - i,
    {
        proof {
            assert(all.take(i as int + 1).drop_last() =~= all.take(i as int));
            assert(rows_affected@.take(i as int + 1).drop_last() =~= rows_affected@.take(i as int));
        }
        if rows_affected[i] == 1 {
            let unit = WorkUnitRow {
                id: candidates[i].id,
                library_item_id: candidates[i].library_item_id,
                status: candidates[i].status.clone(),
            };
            assert(unit == all[i as int]);
            out.push(unit);
        }
        i += 1;
    }
    assert(all.take(all.len() as int) =~= all);
    assert(rows_affected@.take(all.len() as int) =~= rows_affected@);
    out
}

/// A unit indexed on its first run succeeds; one that was retried or had failed recovers.
pub open spec fn success_status_of(previous: Seq<char>) -> Seq<char> {
    if previous == "queued"@ {
        "success"@
    } else {
        "recovered"@
    }
}

pub fn next_success_status(previous: &str) -> (r: &'static str)
    ensures
        r@ == success_status_of(previous@),
{
    if crate::text::str_eq(previous, "queued") {
        "success"
    } else {
        "recovered"
    }
}

/// How many failed units one retry request marks at most: all when no limit is given,
/// else the limit kept between 1 and 500.
pub open spec fn retry_limit_of(limit: Option<u32>) -> Option<int> {
    match limit {
        Some(l) => Some(
            if l < 1 {
                1
            } else if l > 500 {
                500
            } else {
                l as int
            },
        ),
        None => None,
    }
}

pub fn retry_limit(limit: Option<u32>) -> (r: Option<i64>)
    ensures
        match r {
            Some(v) => retry_limit_of(limit) == Some(v as int),
            None => retry_limit_of(limit) is None,
        },
{
    match limit {
        Some(l) => Some(
            if l < 1 {
                1
            } else if l > 500 {
                500
            } else {
                l as i64
            },
        ),
        None => None,
    }
}

/// The number of `true` entries.
pub open spec fn count_true(s: Seq<bool>) -> nat
    decreases s.len(),
{
    if s.len() == 0 {
        0
    } else {
        count_true(s.drop_last()) + if s.last() {
            1nat
        } else {
            0nat
        }
    }
}

/// The counts of a pass whose units ended as `indexed` says (`true` for indexed, `false`
/// for failed): every claimed unit is counted once, as indexed or as failed.
pub fn summarize_pass(indexed: &Vec<bool>) -> (r: ProcessIndexWorkQueueResult)
    requires
        indexed@.len() <= u32::MAX,
    ensures
        r.processed_count == indexed@.len(),
        r.success_count == count_true(indexed@),
        r.failed_count == indexed@.len() - count_true(indexed@),
        r.success_count + r.failed_count == r.processed_count,
{
    let mut success: u32 = 0;
    let mut failed: u32 = 0;
    let mut i: usize = 0;
    while i < indexed.len()
        invariant
            i <= indexed@.len(),
            indexed@.len() <= u32::MAX,
            success == count_true(indexed@.take(i as int)),
            success + failed == i,
        decreases indexed@.len() - i,
    {
        assert(indexed@.take(i as int + 1).drop_last() =~= indexed@.take(i as int));
        if indexed[i] {
            success += 1;
        } else {
            failed += 1;
        }
        i += 1;
    }
    assert(indexed@.take(indexed@.len() as int) =~= indexed@);
    ProcessIndexWorkQueueResult {
        processed_count: indexed.len() as u32,
        success_count: success,
        failed_count: failed,
    }
}

// ---------------------------------------------------------------------------------------
// What an item is indexed under
// ---------------------------------------------------------------------------------------
pub open spec fn or_empty(o: Option<Seq<char>>) -> Seq<char> {
    match o {
        Some(s) => s,
        None => Seq::empty(),
    }
}

/// The full-text field of an item: title, authors, language, publication date and source
/// path, separated by single spaces (an absent field leaves its place empty).
pub open spec fn content_of(
    title: Seq<char>,
    author_text: Seq<char>,
    language: Option<Seq<char>>,
    published_at: Option<Seq<char>>,
    source_path: Seq<char>,
) -> Seq<char> {
    title + " "@ + author_text + " "@ + or_empty(language) + " "@ + or_empty(published_at) + " "@
        + source_path
}

/// The document of an item: its fields, its authors joined by spaces, and the full-text
/// field.
pub fn document_for(row: &IndexableItemRow) -> (d: IndexDocument)
    ensures
        d.library_item_id == row.id as u64,
        d.title == row.title,
        d.authors@ == join(string_list_or_empty(row.authors@), " "@),
        d.language == row.language,
        d.published_at == row.published_at,
        d.source_path == row.source_path,
        d.content@ == content_of(
            row.title@,
            join(string_list_or_empty(row.authors@), " "@),
            row.language.deep_view(),
            row.published_at.deep_view(),
            row.source_path@,
        ),
{
    let authors = parse_string_list_or_empty(row.authors.as_str());
    let author_text = join_strings(&authors, " ");
    let mut content = row.title.clone();
    content.append(" ");
    content.append(author_text.as_str());
    content.append(" ");
    match &row.language {
        Some(l) => content.append(l.as_str()),
        None => {},
    }
    content.append(" ");
    match &row.published_at {
        Some(p) => content.append(p.as_str()),
        None => {},
    }
    content.append(" ");
    content.append(row.source_path.as_str());
    IndexDocument {
        library_item_id: row.id as u64,
        title: row.title.clone(),
        authors: author_text,
        language: match &row.language {
            Some(l) => Some(l.clone()),
            None => None,
        },
        published_at: match &row.published_at {
            Some(p) => Some(p.clone()),
            None => None,
        },
        source_path: row.source_path.clone(),
        content,
    }
}

/// `part` appended to the path `base` as `PathBuf::push` does for a relative part on a
/// platform whose separator is `sep`: an empty base gives `part`, a base that ends with the
/// separator gets `part` directly, any other gets the separator first.
pub open spec fn path_join(base: Seq<char>, part: Seq<char>, sep: char) -> Seq<char> {
    if base.len() == 0 {
        part
    } else if base.last() == sep {
        base + part
    } else {
        base.push(sep) + part
    }
}

/// Where a library keeps its search index: `.caudex/search-index-v1` under the library
/// path.
pub open spec fn index_root_of(library_path: Seq<char>, sep: char) -> Seq<char> {
    path_join(path_join(library_path, ".caudex"@, sep), "search-index-v1"@, sep)
}

fn join_path(base: String, part: &str, sep: char) -> (r: String)
    ensures
        r@ == path_join(base@, part@, sep),
{
    let n = base.unicode_len();
    if n == 0 {
        return String::from_str(part);
    }
    let last = base.get_char(n - 1);
    let mut out = base;
    if last != sep {
        out.push(sep);
    }
    out.append(part);
    out
}

/// The index root of the library at `library_path`, with `separator` the platform's path
/// separator.
pub fn index_root_from_library_path(library_path: &str, separator: char) -> (r: String)
    ensures
        r@ == index_root_of(library_path@, separator),
{
    let first = join_path(String::from_str(library_path), ".caudex", separator);
    join_path(first, "search-index-v1", separator)
}

// ---------------------------------------------------------------------------------------
// Searching
// ---------------------------------------------------------------------------------------
/// A search to run: the trimmed query and how many hits to return.
#[derive(Debug)]
pub struct SearchPlan {
    pub query: String,
    pub limit: usize,
}

/// A blank query finds nothing and is not run; otherwise the trimmed query is run for at
/// least one hit.
pub fn plan_search(query: &str, limit: usize) -> (r: Option<SearchPlan>)
    ensures
        r is None <==> trim(query@).len() == 0,
        r matches Some(p) ==> p.query@ == trim(query@) && p.limit == if limit < 1 {
            1
        } else {
            limit
        },
{
    let trimmed = trim_str(query);
    if trimmed.unicode_len() == 0 {
        None
    } else {
        Some(SearchPlan { query: String::from_str(trimmed), limit: if limit < 1 { 1 } else { limit } })
    }
}

/// The library item a search hit belongs to, read from the id its document stores; the
/// stored id is reinterpreted as a signed id, as it was written from one.
pub fn hit_item_id(stored: Option<u64>) -> (r: Result<i64, String>)
    ensures
        stored matches Some(v) ==> r == Ok::<i64, String>(v as i64),
        stored is None ==> (r matches Err(e) && e@ == "Search document missing library_item_id."@),
{
    match stored {
        Some(v) => Ok(v as i64),
        None => Err(String::from_str("Search document missing library_item_id.")),
    }
}

// ---------------------------------------------------------------------------------------
// Index health
// ---------------------------------------------------------------------------------------
/// What the health check found on disk.
#[derive(Debug, Clone, Copy)]
pub struct IndexInspection {
    /// The index root was a plain file (and was removed).
    pub root_was_file: bool,
    /// Opening (or creating) the index failed, so it was rebuilt from scratch.
    pub open_failed: bool,
    /// Nothing existed at the index root before the check.
    pub was_missing: bool,
    /// The index metadata file exists after opening.
    pub meta_present: bool,
}

pub open spec fn recovery_note_of(recovered: u32) -> Seq<char> {
    if recovered > 0 {
        "Recovered "@ + decimal(recovered as nat) + " interrupted running work unit(s)."@
    } else {
        Seq::empty()
    }
}

/// The note on interrupted units put back in the queue; empty when there were none.
pub fn recovery_note(recovered: u32) -> (r: String)
    ensures
        r@ == recovery_note_of(recovered),
{
    if recovered > 0 {
        let mut note = String::from_str("Recovered ");
        push_decimal(&mut note, recovered as u64);
        note.append(" interrupted running work unit(s).");
        note
    } else {
        String::new()
    }
}

pub open spec fn with_note(note: Seq<char>, message: Seq<char>) -> Seq<char> {
    if note.len() == 0 {
        message
    } else {
        note + " "@ + message
    }
}

pub open spec fn skipped_message() -> Seq<char> {
    "No library configured; index health check skipped."@
}

/// The result of a health check when no library is configured: nothing repaired, nothing
/// queued, and a diagnostic that says so after the recovery note.
pub fn health_without_library(recovered: u32) -> (r: EnsureIndexHealthResult)
    ensures
        !r.repair_performed,
        r.rebuild_queued_count == 0,
        r.index_root@ == Seq::<char>::empty(),
        r.diagnostic@ == with_note(recovery_note_of(recovered), skipped_message()),
{
    let mut diagnostic = recovery_note(recovered);
    if diagnostic.unicode_len() > 0 {
        diagnostic.append(" ");
    }
    diagnostic.append("No library configured; index health check skipped.");
    EnsureIndexHealthResult {
        repair_performed: false,
        rebuild_queued_count: 0,
        index_root: String::new(),
        diagnostic,
    }
}

/// The index needed repair when its root was a file, it could not be opened, it was
/// missing, or its metadata file was absent.
pub open spec fn repair_needed(i: IndexInspection) -> bool {
    i.root_was_file || i.open_failed || i.was_missing || !i.meta_present
}

pub open spec fn index_state_message(i: IndexInspection) -> Seq<char> {
    if i.open_failed {
        "Search index repaired after corruption detection."@
    } else if i.was_missing || !i.meta_present {
        "Search index initialized because it was missing."@
    } else {
        "Search index healthy."@
    }
}

pub fn needs_repair(i: &IndexInspection) -> (r: bool)
    ensures
        r == repair_needed(*i),
{
    i.root_was_file || i.open_failed || i.was_missing || !i.meta_present
}

/// The result of a health check of the index at `index_root`: whether it was repaired,
/// how many items were queued for reindexing (only after a repair), and the diagnostic.
pub fn health_result(
    recovered: u32,
    index_root: String,
    inspection: &IndexInspection,
    queued_for_rebuild: u32,
) -> (r: EnsureIndexHealthResult)
    ensures
        r.repair_performed == repair_needed(*inspection),
        r.rebuild_queued_count == if repair_needed(*inspection) {
            queued_for_rebuild
        } else {
            0
        },
        r.index_root == index_root,
        r.diagnostic@ == with_note(recovery_note_of(recovered), index_state_message(*inspection)),
{
    let repair = needs_repair(inspection);
    let mut diagnostic = recovery_note(recovered);
    if diagnostic.unicode_len() > 0 {
        diagnostic.append(" ");
    }
    if inspection.open_failed {
        diagnostic.append("Search index repaired after corruption detection.");
    } else if inspection.was_missing || !inspection.meta_present {
        diagnostic.append("Search index initialized because it was missing.");
    } else {
        diagnostic.append("Search index healthy.");
    }
    EnsureIndexHealthResult {
        repair_performed: repair,
        rebuild_queued_count: if repair {
            queued_for_rebuild
        } else {
            0
        },
        index_root,
        diagnostic,
    }
}

} // verus!
