//! Batch metadata updates: patch validation, target selection, the preview of a patch on one
//! item, the per-item outcomes, the run summary, and the run identifier derived from the
//! request.
use crate::digest::{hex_lower, is_hex_digit, sha256_hex, sha256_of};
use crate::json::{json_string_array, json_string_text, json_quote, push_json_string_array};
use crate::metadata::{
    authors_result, labels_result, language_result, normalize_authors, normalize_language,
    normalize_published_at, normalize_title, opt_str_view, opt_strings_view, published_at_result,
    same_item, strings_view, title_result, copy_strings, copy_opt_string, LibraryItemMetadata,
    UpdateLibraryItemMetadataInput,
};
use crate::metadata_collections::normalize_labels;
use crate::order::ids_strictly_increasing;
use crate::text::{decimal, push_decimal, str_eq};
use vstd::prelude::*;
use vstd::string::*;
use vstd::utf8::encode_utf8;

verus! {

pub struct BatchMetadataPatchInput {
    pub title: Option<String>,
    pub authors: Option<Vec<String>>,
    pub language: Option<String>,
    pub published_at: Option<String>,
    pub tags: Option<Vec<String>>,
    pub collections: Option<Vec<String>>,
}

pub struct BatchMetadataUpdateInput {
    pub item_ids: Vec<i64>,
    pub patch: BatchMetadataPatchInput,
}

#[derive(Debug)]
pub struct BatchMetadataOutcome {
    pub item_id: i64,
    pub status: String,
    pub reason: Option<String>,
    pub retry_eligible: bool,
    pub before: Option<LibraryItemMetadata>,
    pub after: Option<LibraryItemMetadata>,
}

#[derive(Debug)]
pub struct BatchMetadataRunResult {
    pub run_id: String,
    pub mode: String,
    pub status: String,
    pub total_targets: usize,
    pub updated_count: usize,
    pub skipped_count: usize,
    pub failed_count: usize,
    pub outcomes: Vec<BatchMetadataOutcome>,
}

/// A validated patch: the fields it sets, already normalised.
pub struct NormalizedBatchPatch {
    pub title: Option<String>,
    pub authors: Option<Vec<String>>,
    pub language: Option<String>,
    pub published_at: Option<String>,
    pub tags: Option<Vec<String>>,
    pub collections: Option<Vec<String>>,
}

pub open spec fn opt_title_result(title: Option<String>) -> Result<Option<Seq<char>>, Seq<char>> {
    match title {
        None => Ok(None),
        Some(t) => match title_result(t@) {
            Ok(v) => Ok(Some(v)),
            Err(e) => Err(e),
        },
    }
}

pub open spec fn opt_authors_result(authors: Option<Vec<String>>) -> Result<Option<Seq<Seq<char>>>, Seq<char>> {
    match authors {
        None => Ok(None),
        Some(a) => match authors_result(strings_view(a@)) {
            Ok(v) => Ok(Some(v)),
            Err(e) => Err(e),
        },
    }
}

/// The first error in a patch, in the order the fields are checked, or the error for a
/// patch that sets nothing.
pub open spec fn patch_error(input: BatchMetadataPatchInput) -> Option<Seq<char>> {
    let t = opt_title_result(input.title);
    let a = opt_authors_result(input.authors);
    let l = language_result(opt_str_view(input.language));
    let p = published_at_result(opt_str_view(input.published_at));
    let tg = labels_result(input.tags, "Tag"@);
    let co = labels_result(input.collections, "Collection"@);
    if t is Err {
        Some(t->Err_0)
    } else if a is Err {
        Some(a->Err_0)
    } else if l is Err {
        Some(l->Err_0)
    } else if p is Err {
        Some(p->Err_0)
    } else if tg is Err {
        Some(tg->Err_0)
    } else if co is Err {
        Some(co->Err_0)
    } else if t->Ok_0 is None && a->Ok_0 is None && l->Ok_0 is None && p->Ok_0 is None
        && tg->Ok_0 is None && co->Ok_0 is None {
        Some("Batch patch must include at least one field."@)
    } else {
        None
    }
}

pub open spec fn patch_matches_input(p: NormalizedBatchPatch, input: BatchMetadataPatchInput) -> bool {
    &&& Ok::<Option<Seq<char>>, Seq<char>>(opt_str_view(p.title)) == opt_title_result(input.title)
    &&& Ok::<Option<Seq<Seq<char>>>, Seq<char>>(opt_strings_view(p.authors)) == opt_authors_result(
        input.authors,
    )
    &&& Ok::<Option<Seq<char>>, Seq<char>>(opt_str_view(p.language)) == language_result(
        opt_str_view(input.language),
    )
    &&& Ok::<Option<Seq<char>>, Seq<char>>(opt_str_view(p.published_at)) == published_at_result(
        opt_str_view(input.published_at),
    )
    &&& Ok::<Option<Seq<Seq<char>>>, Seq<char>>(opt_strings_view(p.tags)) == labels_result(
        input.tags,
        "Tag"@,
    )
    &&& Ok::<Option<Seq<Seq<char>>>, Seq<char>>(opt_strings_view(p.collections)) == labels_result(
        input.collections,
        "Collection"@,
    )
}

fn opt_labels(values: &Option<Vec<String>>, kind: &str) -> (r: Result<Option<Vec<String>>, String>)
    ensures
        match r {
            Ok(v) => Ok::<Option<Seq<Seq<char>>>, Seq<char>>(opt_strings_view(v)) == labels_result(
                *values,
                kind@,
            ),
            Err(e) => Err::<Option<Seq<Seq<char>>>, Seq<char>>(e@) == labels_result(*values, kind@),
        },
{
    match values {
        Some(v) => {
            let r = normalize_labels(v.as_slice(), kind);
            assert(v@.map_values(|s: String| s@) =~= strings_view(v@));
            match r {
                Ok(n) => {
                    assert(strings_view(n@) =~= n.deep_view());
                    Ok(Some(n))
                },
                Err(e) => Err(e),
            }
        },
        None => Ok(None),
    }
}

/// Validates and normalises a batch patch; it must set at least one field.
pub fn normalize_patch(input: &BatchMetadataPatchInput) -> (r: Result<NormalizedBatchPatch, String>)
    ensures
        r is Err <==> patch_error(*input) is Some,
        r matches Err(e) ==> Some(e@) == patch_error(*input),
        r matches Ok(p) ==> patch_matches_input(p, *input),
{
    let title = match &input.title {
        Some(t) => Some(normalize_title(t.as_str())?),
        None => None,
    };
    let authors = match &input.authors {
        Some(a) => {
            assert(a@.map_values(|s: String| s@) =~= strings_view(a@));
            Some(normalize_authors(a.as_slice())?)
        },
        None => None,
    };
    let language = normalize_language(&input.language)?;
    let published_at = normalize_published_at(&input.published_at)?;
    let tags = opt_labels(&input.tags, "Tag")?;
    let collections = opt_labels(&input.collections, "Collection")?;
    if title.is_none() && authors.is_none() && language.is_none() && published_at.is_none()
        && tags.is_none() && collections.is_none() {
        return Err(String::from_str("Batch patch must include at least one field."));
    }
    Ok(NormalizedBatchPatch { title, authors, language, published_at, tags, collections })
}

/// The positive identifiers of a batch, ascending and without repeats; at least one.
pub fn normalize_item_ids(item_ids: &Vec<i64>) -> (r: Result<Vec<i64>, String>)
    ensures
        r is Err <==> !(exists|x: i64| item_ids@.contains(x) && x > 0),
        r matches Err(e) ==> e@ == "Batch update requires at least one valid item id."@,
        r matches Ok(ids) ==> ids_strictly_increasing(ids@) && (forall|x: i64|
            ids@.contains(x) <==> (item_ids@.contains(x) && x > 0)),
{
    let ids = crate::order::positive_sorted_unique(item_ids);
    if ids.len() == 0 {
        assert forall|x: i64| !(item_ids@.contains(x) && x > 0) by {
            if item_ids@.contains(x) && x > 0 {
                assert(ids@.contains(x));
            }
        }
        return Err(String::from_str("Batch update requires at least one valid item id."));
    }
    assert(ids@.contains(ids@[0]));
    Ok(ids)
}

// ---------------------------------------------------------------------------------------
// Run identifier
// ---------------------------------------------------------------------------------------
/// A JSON integer.
pub open spec fn int_text(i: i64) -> Seq<char> {
    if i < 0 {
        seq!['-'] + decimal((-(i as int)) as nat)
    } else {
        decimal(i as nat)
    }
}

pub open spec fn int_items(ids: Seq<i64>) -> Seq<char>
    decreases ids.len(),
{
    if ids.len() == 0 {
        Seq::empty()
    } else if ids.len() == 1 {
        int_text(ids[0])
    } else {
        int_items(ids.drop_last()) + seq![','] + int_text(ids.last())
    }
}

pub open spec fn opt_json_text(v: Option<Seq<char>>) -> Seq<char> {
    match v {
        Some(s) => json_string_text(s),
        None => "null"@,
    }
}

pub open spec fn opt_json_array(v: Option<Seq<Seq<char>>>) -> Seq<char> {
    match v {
        Some(s) => json_string_array(s),
        None => "null"@,
    }
}

/// The JSON object that identifies a run: its keys in sorted order, as `serde_json` writes
/// a map, with the patch's fields likewise sorted.
pub open spec fn run_payload_text(mode: Seq<char>, ids: Seq<i64>, p: NormalizedBatchPatch) -> Seq<char> {
    "{\"item_ids\":["@ + int_items(ids) + "],\"mode\":"@ + json_string_text(mode)
        + ",\"patch\":{\"authors\":"@ + opt_json_array(opt_strings_view(p.authors))
        + ",\"collections\":"@ + opt_json_array(opt_strings_view(p.collections)) + ",\"language\":"@
        + opt_json_text(opt_str_view(p.language)) + ",\"published_at\":"@ + opt_json_text(
        opt_str_view(p.published_at),
    ) + ",\"tags\":"@ + opt_json_array(opt_strings_view(p.tags)) + ",\"title\":"@ + opt_json_text(
        opt_str_view(p.title),
    ) + "}}"@
}

/// `batch-` followed by the first 16 hex digits of the SHA-256 of the payload's UTF-8 bytes.
pub open spec fn run_id_of(mode: Seq<char>, ids: Seq<i64>, p: NormalizedBatchPatch) -> Seq<char> {
    "batch-"@ + hex_lower(sha256_of(encode_utf8(run_payload_text(mode, ids, p)))).subrange(0, 16)
}

fn push_int(out: &mut String, i: i64)
    ensures
        final(out)@ == old(out)@ + int_text(i),
{
    if i < 0 {
        out.push('-');
        let magnitude: u64 = if i == i64::MIN {
            9223372036854775808u64
        } else {
            (-i) as u64
        };
        push_decimal(out, magnitude);
        assert(final(out)@ =~= old(out)@ + int_text(i));
    } else {
        push_decimal(out, i as u64);
    }
}

fn push_opt_json_text(out: &mut String, v: &Option<String>)
    ensures
        final(out)@ == old(out)@ + opt_json_text(opt_str_view(*v)),
{
    match v {
        Some(s) => {
            let q = json_quote(s.as_str());
            out.append(q.as_str());
        },
        None => {
            out.append("null");
        },
    }
}

fn push_opt_json_array(out: &mut String, v: &Option<Vec<String>>)
    ensures
        final(out)@ == old(out)@ + opt_json_array(opt_strings_view(*v)),
{
    match v {
        Some(items) => {
            push_json_string_array(out, items);
            assert(items.deep_view() =~= strings_view(items@));
        },
        None => {
            out.append("null");
        },
    }
}

/// The JSON payload that identifies a run.
pub fn run_payload(mode: &str, item_ids: &Vec<i64>, patch: &NormalizedBatchPatch) -> (s: String)
    ensures
        s@ == run_payload_text(mode@, item_ids@, *patch),
{
    let mut s = String::from_str("{\"item_ids\":[");
    let ghost start = s@;
    let mut i: usize = 0;
    while i < item_ids.len()
        invariant
            i <= item_ids@.len(),
            s@ == start + int_items(item_ids@.take(i as int)),
        decreases item_ids@.len() - i,
    {
        proof {
            reveal_strlit(",");
        }
        if i > 0 {
            s.append(",");
        }
        push_int(&mut s, item_ids[i]);
        proof {
            let t = item_ids@.take(i as int + 1);
            assert(t.drop_last() =~= item_ids@.take(i as int));
            if i == 0 {
                assert(item_ids@.take(0) =~= Seq::<i64>::empty());
            }
        }
        i += 1;
    }
    assert(item_ids@.take(item_ids@.len() as int) =~= item_ids@);
    s.append("],\"mode\":");
    let q = json_quote(mode);
    s.append(q.as_str());
    s.append(",\"patch\":{\"authors\":");
    push_opt_json_array(&mut s, &patch.authors);
    s.append(",\"collections\":");
    push_opt_json_array(&mut s, &patch.collections);
    s.append(",\"language\":");
    push_opt_json_text(&mut s, &patch.language);
    s.append(",\"published_at\":");
    push_opt_json_text(&mut s, &patch.published_at);
    s.append(",\"tags\":");
    push_opt_json_array(&mut s, &patch.tags);
    s.append(",\"title\":");
    push_opt_json_text(&mut s, &patch.title);
    s.append("}}");
    assert(s@ =~= run_payload_text(mode@, item_ids@, *patch));
    s
}

/// The identifier of a run: the same mode, targets and patch always give the same one.
pub fn deterministic_run_id(mode: &str, item_ids: &Vec<i64>, patch: &NormalizedBatchPatch) -> (r: String)
    ensures
        r@ == run_id_of(mode@, item_ids@, *patch),
        r@.len() == 22,
        r@.subrange(0, 6) == "batch-"@,
        forall|i: int| 6 <= i < 22 ==> is_hex_digit(#[trigger] r@[i]),
{
    let payload = run_payload(mode, item_ids, patch);
    let digest_hex = sha256_hex(payload.as_str().as_bytes());
    proof {
        reveal_strlit("batch-");
    }
    let mut r = String::from_str("batch-");
    r.append(digest_hex.as_str().substring_char(0, 16));
    r
}

// ---------------------------------------------------------------------------------------
// Preview and outcomes
// ---------------------------------------------------------------------------------------
pub open spec fn opt_set(patch: Option<String>, current: Option<String>) -> Option<String> {
    match patch {
        Some(v) => Some(v),
        None => current,
    }
}

/// The item as the patch would leave it.
pub open spec fn patched(current: LibraryItemMetadata, after: LibraryItemMetadata, p: NormalizedBatchPatch) -> bool {
    &&& after.id == current.id
    &&& after.title == (match p.title {
        Some(t) => t,
        None => current.title,
    })
    &&& after.authors@ == (match p.authors {
        Some(a) => a@,
        None => current.authors@,
    })
    &&& after.language == opt_set(p.language, current.language)
    &&& after.published_at == opt_set(p.published_at, current.published_at)
    &&& after.format == current.format
    &&& after.source_path == current.source_path
    &&& after.tags@ == (match p.tags {
        Some(t) => t@,
        None => current.tags@,
    })
    &&& after.collections@ == (match p.collections {
        Some(c) => c@,
        None => current.collections@,
    })
}

pub open spec fn opt_view_eq(a: Option<String>, b: Option<String>) -> bool {
    opt_str_view(a) == opt_str_view(b)
}

/// Whether the editable fields of two items differ.
pub open spec fn fields_differ(a: LibraryItemMetadata, b: LibraryItemMetadata) -> bool {
    !(a.title@ == b.title@ && strings_view(a.authors@) == strings_view(b.authors@) && opt_view_eq(
        a.language,
        b.language,
    ) && opt_view_eq(a.published_at, b.published_at) && strings_view(a.tags@) == strings_view(
        b.tags@,
    ) && strings_view(a.collections@) == strings_view(b.collections@))
}

fn strings_eq(a: &Vec<String>, b: &Vec<String>) -> (r: bool)
    ensures
        r == (strings_view(a@) == strings_view(b@)),
{
    if a.len() != b.len() {
        return false;
    }
    let mut i: usize = 0;
    while i < a.len()
        invariant
            i <= a@.len(),
            a@.len() == b@.len(),
            forall|k: int| 0 <= k < i ==> a@[k]@ == b@[k]@,
        decreases a@.len() - i,
    {
        if !(a[i] == b[i]) {
            assert(strings_view(a@)[i as int] != strings_view(b@)[i as int]);
            return false;
        }
        i += 1;
    }
    assert(strings_view(a@) =~= strings_view(b@));
    true
}

fn opt_eq(a: &Option<String>, b: &Option<String>) -> (r: bool)
    ensures
        r == opt_view_eq(*a, *b),
{
    match (a, b) {
        (Some(x), Some(y)) => str_eq(x.as_str(), y.as_str()),
        (None, None) => true,
        _ => false,
    }
}

/// Applies a patch to a copy of an item and says whether any editable field changed.
pub fn apply_patch_preview(current: &LibraryItemMetadata, patch: &NormalizedBatchPatch) -> (r: (
    LibraryItemMetadata,
    bool,
))
    ensures
        patched(*current, r.0, *patch),
        r.1 == fields_differ(r.0, *current),
        r.1 <==> ((patch.title matches Some(t) && t@ != current.title@) || (patch.authors matches Some(a)
            && strings_view(a@) != strings_view(current.authors@)) || (patch.language matches Some(l)
            && Some(l@) != opt_str_view(current.language)) || (patch.published_at matches Some(d)
            && Some(d@) != opt_str_view(current.published_at)) || (patch.tags matches Some(t)
            && strings_view(t@) != strings_view(current.tags@)) || (patch.collections matches Some(c)
            && strings_view(c@) != strings_view(current.collections@))),
{
    let mut after = current.duplicate();
    match &patch.title {
        Some(v) => {
            after.title = v.clone();
        },
        None => {},
    }
    match &patch.authors {
        Some(v) => {
            after.authors = copy_strings(v);
        },
        None => {},
    }
    match &patch.language {
        Some(v) => {
            after.language = Some(v.clone());
        },
        None => {},
    }
    match &patch.published_at {
        Some(v) => {
            after.published_at = Some(v.clone());
        },
        None => {},
    }
    match &patch.tags {
        Some(v) => {
            after.tags = copy_strings(v);
        },
        None => {},
    }
    match &patch.collections {
        Some(v) => {
            after.collections = copy_strings(v);
        },
        None => {},
    }
    let changed = !(after.title == current.title && strings_eq(&after.authors, &current.authors)
        && opt_eq(&after.language, &current.language) && opt_eq(
        &after.published_at,
        &current.published_at,
    ) && strings_eq(&after.tags, &current.tags) && strings_eq(
        &after.collections,
        &current.collections,
    ));
    proof {
        lemma_patch_change_rule(*current, after, *patch);
    }
    (after, changed)
}

/// A patch changes an item exactly when it sets some field to a value other than the item's
/// current one: in particular a patch that only sets tags, or only collections, different
/// from the current ones is an effective change, and a patch whose every value is already
/// the item's changes nothing.
pub proof fn lemma_patch_change_rule(
    current: LibraryItemMetadata,
    after: LibraryItemMetadata,
    p: NormalizedBatchPatch,
)
    requires
        patched(current, after, p),
    ensures
        fields_differ(after, current) <==> ((p.title matches Some(t) && t@ != current.title@) || (p.authors matches Some(a)
            && strings_view(a@) != strings_view(current.authors@)) || (p.language matches Some(l)
            && Some(l@) != opt_str_view(current.language)) || (p.published_at matches Some(d)
            && Some(d@) != opt_str_view(current.published_at)) || (p.tags matches Some(t)
            && strings_view(t@) != strings_view(current.tags@)) || (p.collections matches Some(c)
            && strings_view(c@) != strings_view(current.collections@))),
{
}

/// Previewing a patch on what the same patch produced reports no change.
pub proof fn lemma_patch_idempotent(
    current: LibraryItemMetadata,
    once: LibraryItemMetadata,
    twice: LibraryItemMetadata,
    p: NormalizedBatchPatch,
)
    requires
        patched(current, once, p),
        patched(once, twice, p),
    ensures
        !fields_differ(twice, once),
        same_item(twice, once),
{
}

pub open spec fn outcome_is(
    o: BatchMetadataOutcome,
    item_id: i64,
    status: Seq<char>,
    reason: Option<Seq<char>>,
    retry_eligible: bool,
) -> bool {
    &&& o.item_id == item_id
    &&& o.status@ == status
    &&& opt_str_view(o.reason) == reason
    &&& o.retry_eligible == retry_eligible
}

/// The outcome for an item that could not be loaded.
pub fn missing_item_outcome(item_id: i64, error: String) -> (o: BatchMetadataOutcome)
    ensures
        outcome_is(o, item_id, "failed"@, Some(error@), false),
        o.before is None,
        o.after is None,
{
    BatchMetadataOutcome {
        item_id,
        status: String::from_str("failed"),
        reason: Some(error),
        retry_eligible: false,
        before: None,
        after: None,
    }
}

/// The preview outcome for one item: skipped when the patch changes nothing, updated
/// otherwise; both carry the item before and after.
pub fn preview_outcome(item_id: i64, current: LibraryItemMetadata, patch: &NormalizedBatchPatch) -> (o:
    BatchMetadataOutcome)
    ensures
        ({
            let after = o.after->Some_0;
            &&& o.before == Some(current)
            &&& o.after is Some
            &&& patched(current, after, *patch)
            &&& !fields_differ(after, current) ==> outcome_is(
                o,
                item_id,
                "skipped"@,
                Some("No effective change for this item."@),
                false,
            )
            &&& fields_differ(after, current) ==> outcome_is(o, item_id, "updated"@, None, false)
        }),
{
    let (after, changed) = apply_patch_preview(&current, patch);
    if !changed {
        return BatchMetadataOutcome {
            item_id,
            status: String::from_str("skipped"),
            reason: Some(String::from_str("No effective change for this item.")),
            retry_eligible: false,
            before: Some(current),
            after: Some(after),
        };
    }
    BatchMetadataOutcome {
        item_id,
        status: String::from_str("updated"),
        reason: None,
        retry_eligible: false,
        before: Some(current),
        after: Some(after),
    }
}

/// What executing a patch on one loaded item calls for.
pub enum ExecuteStep {
    /// Nothing changes; the outcome is settled.
    Skip(BatchMetadataOutcome),
    /// The item is to be updated with this input.
    Update { current: LibraryItemMetadata, input: UpdateLibraryItemMetadataInput },
}

/// Decides whether executing the patch on an item changes it, and if so, the update to run:
/// every editable field of the patched item, tags and collections only where the patch
/// sets them.
pub fn plan_execute_item(item_id: i64, current: LibraryItemMetadata, patch: &NormalizedBatchPatch) -> (r:
    ExecuteStep)
    ensures
        r matches ExecuteStep::Skip(o) ==> outcome_is(
            o,
            item_id,
            "skipped"@,
            Some("No effective change for this item."@),
            false,
        ) && o.before == Some(current) && o.after is Some && patched(current, o.after->Some_0, *patch)
            && !fields_differ(o.after->Some_0, current),
        r matches ExecuteStep::Update { current: c, input } ==> c == current && input.item_id
            == item_id && (exists|after: LibraryItemMetadata|
            patched(current, after, *patch) && fields_differ(after, current) && input.title
                == after.title && input.authors@ == after.authors@ && input.language
                == after.language && input.published_at == after.published_at && (match patch.tags {
                Some(_) => input.tags is Some && input.tags->Some_0@ == after.tags@,
                None => input.tags is None,
            }) && (match patch.collections {
                Some(_) => input.collections is Some && input.collections->Some_0@
                    == after.collections@,
                None => input.collections is None,
            })),
{
    let (after, changed) = apply_patch_preview(&current, patch);
    if !changed {
        return ExecuteStep::Skip(
            BatchMetadataOutcome {
                item_id,
                status: String::from_str("skipped"),
                reason: Some(String::from_str("No effective change for this item.")),
                retry_eligible: false,
                before: Some(current),
                after: Some(after),
            },
        );
    }
    let tags = match &patch.tags {
        Some(_) => Some(copy_strings(&after.tags)),
        None => None,
    };
    let collections = match &patch.collections {
        Some(_) => Some(copy_strings(&after.collections)),
        None => None,
    };
    let input = UpdateLibraryItemMetadataInput {
        item_id,
        title: after.title.clone(),
        authors: copy_strings(&after.authors),
        language: copy_opt_string(&after.language),
        published_at: copy_opt_string(&after.published_at),
        tags,
        collections,
    };
    ExecuteStep::Update { current, input }
}

/// The outcome of an executed update: updated with the stored item, or failed and
/// eligible for retry.
pub fn executed_outcome(item_id: i64, current: LibraryItemMetadata, result: Result<LibraryItemMetadata, String>) -> (o:
    BatchMetadataOutcome)
    ensures
        o.before == Some(current),
        result matches Ok(updated) ==> outcome_is(o, item_id, "updated"@, None, false) && o.after
            == Some(updated),
        result matches Err(e) ==> outcome_is(o, item_id, "failed"@, Some(e@), true) && o.after is None,
{
    match result {
        Ok(updated) => BatchMetadataOutcome {
            item_id,
            status: String::from_str("updated"),
            reason: None,
            retry_eligible: false,
            before: Some(current),
            after: Some(updated),
        },
        Err(error) => BatchMetadataOutcome {
            item_id,
            status: String::from_str("failed"),
            reason: Some(error),
            retry_eligible: true,
            before: Some(current),
            after: None,
        },
    }
}

/// How many outcomes carry the given status.
pub open spec fn count_outcomes(outcomes: Seq<BatchMetadataOutcome>, status: Seq<char>) -> nat
    decreases outcomes.len(),
{
    if outcomes.len() == 0 {
        0
    } else {
        count_outcomes(outcomes.drop_last(), status) + if outcomes.last().status@ == status {
            1nat
        } else {
            0nat
        }
    }
}

/// A run with no failures succeeded when something was updated and had no changes
/// otherwise; a run with failures partly succeeded when anything else happened, and failed
/// otherwise.
pub open spec fn batch_status(updated: nat, skipped: nat, failed: nat) -> Seq<char> {
    if failed == 0 {
        if updated == 0 {
            "no_changes"@
        } else {
            "success"@
        }
    } else if updated > 0 || skipped > 0 {
        "partial_success"@
    } else {
        "failed"@
    }
}

fn count_with(outcomes: &Vec<BatchMetadataOutcome>, status: &str) -> (n: usize)
    ensures
        n == count_outcomes(outcomes@, status@),
{
    let mut n: usize = 0;
    let mut i: usize = 0;
    while i < outcomes.len()
        invariant
            i <= outcomes@.len(),
            n == count_outcomes(outcomes@.take(i as int), status@),
            n <= i,
        decreases outcomes@.len() - i,
    {
        assert(outcomes@.take(i as int + 1).drop_last() =~= outcomes@.take(i as int));
        if str_eq(outcomes[i].status.as_str(), status) {
            n += 1;
        }
        i += 1;
    }
    assert(outcomes@.take(outcomes@.len() as int) =~= outcomes@);
    n
}

/// A run with no failures reports "success" when it updated something and "no_changes"
/// otherwise; a run with failures reports "partial_success" when anything was updated or
/// skipped and "failed" only when every outcome failed; the four statuses are distinct.
pub proof fn lemma_batch_status_rule(updated: nat, skipped: nat, failed: nat)
    ensures
        failed == 0 && updated > 0 ==> batch_status(updated, skipped, failed) == "success"@,
        failed == 0 && updated == 0 ==> batch_status(updated, skipped, failed) == "no_changes"@,
        failed > 0 && (updated > 0 || skipped > 0) ==> batch_status(updated, skipped, failed)
            == "partial_success"@,
        (batch_status(updated, skipped, failed) == "failed"@) <==> (failed > 0 && updated == 0
            && skipped == 0),
        "success"@ != "no_changes"@ && "success"@ != "partial_success"@ && "success"@ != "failed"@,
        "no_changes"@ != "partial_success"@ && "no_changes"@ != "failed"@,
        "partial_success"@ != "failed"@,
{
    reveal_strlit("success");
    reveal_strlit("no_changes");
    reveal_strlit("partial_success");
    reveal_strlit("failed");
    assert("success"@[0] != "no_changes"@[0]);
    assert("success"@[0] != "partial_success"@[0]);
    assert("success"@[0] != "failed"@[0]);
    assert("no_changes"@[0] != "partial_success"@[0]);
    assert("no_changes"@[0] != "failed"@[0]);
    assert("partial_success"@[0] != "failed"@[0]);
}

/// Whether every outcome was updated, skipped or failed.
pub open spec fn all_classified(outcomes: Seq<BatchMetadataOutcome>) -> bool {
    forall|i: int|
        0 <= i < outcomes.len() ==> {
            let st = #[trigger] outcomes[i].status@;
            st == "updated"@ || st == "skipped"@ || st == "failed"@
        }
}

/// The three statuses are distinct, so their counts never exceed the number of outcomes,
/// and they add up to it exactly when every outcome was updated, skipped or failed.
pub proof fn lemma_outcome_counts_partition(outcomes: Seq<BatchMetadataOutcome>)
    ensures
        count_outcomes(outcomes, "updated"@) + count_outcomes(outcomes, "skipped"@)
            + count_outcomes(outcomes, "failed"@) <= outcomes.len(),
        all_classified(outcomes) ==> count_outcomes(outcomes, "updated"@) + count_outcomes(
            outcomes,
            "skipped"@,
        ) + count_outcomes(outcomes, "failed"@) == outcomes.len(),
    decreases outcomes.len(),
{
    reveal_strlit("updated");
    reveal_strlit("skipped");
    reveal_strlit("failed");
    if outcomes.len() > 0 {
        lemma_outcome_counts_partition(outcomes.drop_last());
        assert("updated"@[0] != "skipped"@[0]);
        assert("updated"@[0] != "failed"@[0]);
        assert("skipped"@[0] != "failed"@[0]);
        if all_classified(outcomes) {
            assert forall|i: int| 0 <= i < outcomes.drop_last().len() implies {
                let st = #[trigger] outcomes.drop_last()[i].status@;
                st == "updated"@ || st == "skipped"@ || st == "failed"@
            } by {
                assert(outcomes.drop_last()[i] == outcomes[i]);
            }
            assert(all_classified(outcomes.drop_last()));
            let st = outcomes[outcomes.len() - 1].status@;
            assert(st == "updated"@ || st == "skipped"@ || st == "failed"@);
        }
    }
}

/// The summary of a run.
pub fn summarize_batch(run_id: String, mode: &str, total_targets: usize, outcomes: Vec<BatchMetadataOutcome>) -> (r:
    BatchMetadataRunResult)
    ensures
        r.run_id == run_id,
        r.mode@ == mode@,
        r.total_targets == total_targets,
        r.updated_count == count_outcomes(outcomes@, "updated"@),
        r.skipped_count == count_outcomes(outcomes@, "skipped"@),
        r.failed_count == count_outcomes(outcomes@, "failed"@),
        r.status@ == batch_status(
            r.updated_count as nat,
            r.skipped_count as nat,
            r.failed_count as nat,
        ),
        r.outcomes@ == outcomes@,
        r.updated_count + r.skipped_count + r.failed_count <= outcomes@.len(),
        outcomes@.len() == total_targets && all_classified(outcomes@) ==> r.updated_count
            + r.skipped_count + r.failed_count == r.total_targets,
        r.failed_count == 0 && r.updated_count > 0 ==> r.status@ == "success"@,
        r.failed_count == 0 && r.updated_count == 0 ==> r.status@ == "no_changes"@,
        r.failed_count > 0 && (r.updated_count > 0 || r.skipped_count > 0) ==> r.status@
            == "partial_success"@,
        (r.status@ == "failed"@) <==> (r.failed_count > 0 && r.updated_count == 0
            && r.skipped_count == 0),
{
    proof {
        lemma_outcome_counts_partition(outcomes@);
    }
    let updated_count = count_with(&outcomes, "updated");
    let skipped_count = count_with(&outcomes, "skipped");
    let failed_count = count_with(&outcomes, "failed");
    proof {
        lemma_batch_status_rule(updated_count as nat, skipped_count as nat, failed_count as nat);
    }
    let status = if failed_count == 0 {
        if updated_count == 0 {
            "no_changes"
        } else {
            "success"
        }
    } else if updated_count > 0 || skipped_count > 0 {
        "partial_success"
    } else {
        "failed"
    };
    BatchMetadataRunResult {
        run_id,
        mode: String::from_str(mode),
        status: String::from_str(status),
        total_targets,
        updated_count,
        skipped_count,
        failed_count,
        outcomes,
    }
}

} // verus!
