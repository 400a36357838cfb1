//! Metadata conflicts: which candidate values differ from an item's current metadata, the
//! filters and resolutions a user may ask for, and the update that adopting a candidate
//! value makes.
use crate::json::{json_string_array, parse_string_list_or_empty, json_parse_string_list, parsed_string_list, to_json_string_array};
use crate::metadata::{
    authors_result, copy_strings, language_result, normalize_authors, normalize_language,
    normalize_optional_trimmed, normalize_published_at, normalize_title, opt_str_view,
    optional_trimmed, published_at_result, strings_view, title_result, LibraryItemMetadata,
    UpdateLibraryItemMetadataInput,
};
use crate::text::{lower, str_eq, to_ascii_lower, trim, trim_str};
use vstd::prelude::*;
use vstd::string::*;

verus! {

pub struct MetadataConflictCandidateInput {
    pub title: Option<String>,
    pub authors: Option<Vec<String>>,
    pub language: Option<String>,
    pub published_at: Option<String>,
}

pub struct DetectMetadataConflictsInput {
    pub item_id: i64,
    pub candidate: MetadataConflictCandidateInput,
    pub source: Option<String>,
}

pub struct ListMetadataConflictsInput {
    pub item_id: i64,
    pub status: Option<String>,
}

pub struct ResolveMetadataConflictInput {
    pub conflict_id: i64,
    pub resolution: String,
    pub rationale: Option<String>,
}

#[derive(Debug)]
pub struct MetadataConflictRecord {
    pub id: i64,
    pub item_id: i64,
    pub field_name: String,
    pub current_value: String,
    pub candidate_value: String,
    pub candidate_source: String,
    pub status: String,
    pub rationale: Option<String>,
    pub created_at: String,
    pub resolved_at: Option<String>,
}

#[derive(Debug)]
pub struct DetectMetadataConflictsResult {
    pub item_id: i64,
    pub conflicts: Vec<MetadataConflictRecord>,
}

#[derive(Debug)]
pub struct ListMetadataConflictsResult {
    pub item_id: i64,
    pub conflicts: Vec<MetadataConflictRecord>,
}

#[derive(Debug)]
pub struct ResolveMetadataConflictResult {
    pub conflict: MetadataConflictRecord,
    pub item: LibraryItemMetadata,
}

/// A stored conflict row.
pub struct MetadataConflictRow {
    pub id: i64,
    pub library_item_id: i64,
    pub field_name: String,
    pub current_value: String,
    pub candidate_value: String,
    pub candidate_source: String,
    pub status: String,
    pub rationale: Option<String>,
    pub created_at: String,
    pub resolved_at: Option<String>,
}

impl MetadataConflictRecord {
    /// The record reported for a stored row.
    pub fn from(value: MetadataConflictRow) -> (r: Self)
        ensures
            r.id == value.id,
            r.item_id == value.library_item_id,
            r.field_name == value.field_name,
            r.current_value == value.current_value,
            r.candidate_value == value.candidate_value,
            r.candidate_source == value.candidate_source,
            r.status == value.status,
            r.rationale == value.rationale,
            r.created_at == value.created_at,
            r.resolved_at == value.resolved_at,
    {
        MetadataConflictRecord {
            id: value.id,
            item_id: value.library_item_id,
            field_name: value.field_name,
            current_value: value.current_value,
            candidate_value: value.candidate_value,
            candidate_source: value.candidate_source,
            status: value.status,
            rationale: value.rationale,
            created_at: value.created_at,
            resolved_at: value.resolved_at,
        }
    }
}

/// A conflict to record: one field whose candidate value differs from the current one.
pub struct ConflictProposal {
    pub field_name: &'static str,
    pub current_value: String,
    pub candidate_value: String,
}

/// Where a candidate came from; `manual` when not said.
pub open spec fn source_label(source: Option<Seq<char>>) -> Seq<char> {
    match optional_trimmed(source) {
        Some(s) => s,
        None => "manual"@,
    }
}

pub fn conflict_source(source: &Option<String>) -> (r: String)
    ensures
        r@ == source_label(opt_str_view(*source)),
{
    match normalize_optional_trimmed(source) {
        Some(s) => s,
        None => String::from_str("manual"),
    }
}

/// The first error in a candidate, in the order the fields are checked.
pub open spec fn candidate_error(c: MetadataConflictCandidateInput) -> Option<Seq<char>> {
    let t = match c.title {
        Some(v) => title_result(v@),
        None => Ok(Seq::empty()),
    };
    let a = match c.authors {
        Some(v) => match authors_result(strings_view(v@)) {
            Ok(_) => Ok(Seq::<char>::empty()),
            Err(e) => Err(e),
        },
        None => Ok(Seq::empty()),
    };
    let l = language_result(opt_str_view(c.language));
    let p = published_at_result(opt_str_view(c.published_at));
    if t is Err {
        Some(t->Err_0)
    } else if a is Err {
        Some(a->Err_0)
    } else if l is Err {
        Some(l->Err_0)
    } else if p is Err {
        Some(p->Err_0)
    } else {
        None
    }
}

pub open spec fn proposal_view(p: ConflictProposal) -> (Seq<char>, Seq<char>, Seq<char>) {
    (p.field_name@, p.current_value@, p.candidate_value@)
}

pub open spec fn opt_text(o: Option<Seq<char>>) -> Seq<char> {
    match o {
        Some(s) => s,
        None => Seq::empty(),
    }
}

/// The conflicts a valid candidate raises against an item, in field order: title, authors
/// (as JSON lists), language and publication date (absent current values as empty text).
/// A field raises one only when the candidate sets it to a value other than the current one.
pub open spec fn title_conflicts(current: LibraryItemMetadata, c: MetadataConflictCandidateInput) -> Seq<(Seq<char>, Seq<char>, Seq<char>)> {
    match c.title {
        Some(v) => if title_result(v@)->Ok_0 != current.title@ {
            seq![("title"@, current.title@, title_result(v@)->Ok_0)]
        } else {
            Seq::empty()
        },
        None => Seq::empty(),
    }
}

pub open spec fn authors_conflicts(current: LibraryItemMetadata, c: MetadataConflictCandidateInput) -> Seq<(Seq<char>, Seq<char>, Seq<char>)> {
    match c.authors {
        Some(v) => if authors_result(strings_view(v@))->Ok_0 != strings_view(current.authors@) {
            seq![
                (
                    "authors"@,
                    json_string_array(strings_view(current.authors@)),
                    json_string_array(authors_result(strings_view(v@))->Ok_0),
                ),
            ]
        } else {
            Seq::empty()
        },
        None => Seq::empty(),
    }
}

pub open spec fn language_conflicts(current: LibraryItemMetadata, c: MetadataConflictCandidateInput) -> Seq<(Seq<char>, Seq<char>, Seq<char>)> {
    match language_result(opt_str_view(c.language))->Ok_0 {
        Some(v) => if Some(v) != opt_str_view(current.language) {
            seq![("language"@, opt_text(opt_str_view(current.language)), v)]
        } else {
            Seq::empty()
        },
        None => Seq::empty(),
    }
}

pub open spec fn published_at_conflicts(current: LibraryItemMetadata, c: MetadataConflictCandidateInput) -> Seq<(Seq<char>, Seq<char>, Seq<char>)> {
    match published_at_result(opt_str_view(c.published_at))->Ok_0 {
        Some(v) => if Some(v) != opt_str_view(current.published_at) {
            seq![("published_at"@, opt_text(opt_str_view(current.published_at)), v)]
        } else {
            Seq::empty()
        },
        None => Seq::empty(),
    }
}

/// The conflicts a valid candidate raises against an item, in field order: title, authors
/// (as JSON lists), language and publication date (absent current values as empty text).
/// A field raises one only when the candidate sets it to a value other than the current one.
pub open spec fn expected_conflicts(current: LibraryItemMetadata, c: MetadataConflictCandidateInput) -> Seq<(Seq<char>, Seq<char>, Seq<char>)> {
    title_conflicts(current, c) + authors_conflicts(current, c) + language_conflicts(current, c)
        + published_at_conflicts(current, c)
}

fn strings_equal(a: &Vec<String>, b: &Vec<String>) -> (r: bool)
    ensures
        r == (strings_view(a@) == strings_view(b@)),
{
    if a.len() != b.len() {
        return false;
    }
    let mut i: usize = 0;
    while i < a.len()
        invariant
            i <= a@.len(),
            a@.len() == b@.len(),
            forall|k: int| 0 <= k < i ==> a@[k]@ == b@[k]@,
        decreases a@.len() - i,
    {
        if !str_eq(a[i].as_str(), b[i].as_str()) {
            assert(strings_view(a@)[i as int] != strings_view(b@)[i as int]);
            return false;
        }
        i += 1;
    }
    assert(strings_view(a@) =~= strings_view(b@));
    true
}

fn text_or_empty(o: &Option<String>) -> (r: String)
    ensures
        r@ == opt_text(opt_str_view(*o)),
{
    match o {
        Some(s) => s.clone(),
        None => String::new(),
    }
}

fn differs_from(value: &String, current: &Option<String>) -> (r: bool)
    ensures
        r == (Some(value@) != opt_str_view(*current)),
{
    match current {
        Some(c) => !str_eq(value.as_str(), c.as_str()),
        None => true,
    }
}

/// Validates a candidate and lists the conflicts it raises against an item.
pub fn plan_conflict_detection(current: &LibraryItemMetadata, candidate: &MetadataConflictCandidateInput) -> (r:
    Result<Vec<ConflictProposal>, String>)
    ensures
        r is Err <==> candidate_error(*candidate) is Some,
        r matches Err(e) ==> Some(e@) == candidate_error(*candidate),
        r matches Ok(v) ==> v@.map_values(|p: ConflictProposal| proposal_view(p)) == expected_conflicts(
            *current,
            *candidate,
        ),
{
    let title = match &candidate.title {
        Some(v) => Some(normalize_title(v.as_str())?),
        None => None,
    };
    let authors = match &candidate.authors {
        Some(v) => {
            assert(v@.map_values(|s: String| s@) =~= strings_view(v@));
            Some(normalize_authors(v.as_slice())?)
        },
        None => None,
    };
    let language = normalize_language(&candidate.language)?;
    let published_at = normalize_published_at(&candidate.published_at)?;
    let mut proposals: Vec<ConflictProposal> = Vec::new();
    match title {
        Some(t) => {
            if !str_eq(t.as_str(), current.title.as_str()) {
                proposals.push(
                    ConflictProposal {
                        field_name: "title",
                        current_value: current.title.clone(),
                        candidate_value: t,
                    },
                );
            }
        },
        None => {},
    }
    assert(proposals@.map_values(|p: ConflictProposal| proposal_view(p)) =~= title_conflicts(*current, *candidate));
    match authors {
        Some(a) => {
            if !strings_equal(&a, &current.authors) {
                let current_authors = to_json_string_array(&current.authors);
                let candidate_authors = to_json_string_array(&a);
                assert(current.authors.deep_view() =~= strings_view(current.authors@));
                assert(a.deep_view() =~= strings_view(a@));
                proposals.push(
                    ConflictProposal {
                        field_name: "authors",
                        current_value: current_authors,
                        candidate_value: candidate_authors,
                    },
                );
            }
        },
        None => {},
    }
    assert(proposals@.map_values(|p: ConflictProposal| proposal_view(p)) =~= title_conflicts(*current, *candidate) + authors_conflicts(*current, *candidate));
    match language {
        Some(l) => {
            if differs_from(&l, &current.language) {
                proposals.push(
                    ConflictProposal {
                        field_name: "language",
                        current_value: text_or_empty(&current.language),
                        candidate_value: l,
                    },
                );
            }
        },
        None => {},
    }
    assert(proposals@.map_values(|p: ConflictProposal| proposal_view(p)) =~= title_conflicts(*current, *candidate) + authors_conflicts(*current, *candidate) + language_conflicts(*current, *candidate));
    match published_at {
        Some(p) => {
            if differs_from(&p, &current.published_at) {
                proposals.push(
                    ConflictProposal {
                        field_name: "published_at",
                        current_value: text_or_empty(&current.published_at),
                        candidate_value: p,
                    },
                );
            }
        },
        None => {},
    }
    assert(proposals@.map_values(|p: ConflictProposal| proposal_view(p)) =~= expected_conflicts(
        *current,
        *candidate,
    ));
    Ok(proposals)
}

/// Whether a status filter names one of the conflict states.
pub open spec fn known_conflict_status(s: Seq<char>) -> bool {
    s == "pending"@ || s == "resolved_keep_current"@ || s == "resolved_use_candidate"@
}

/// A status filter, trimmed and lower-cased; blank means no filter.
pub open spec fn status_filter_result(status: Option<Seq<char>>) -> Result<Option<Seq<char>>, Seq<char>> {
    match status {
        None => Ok(None),
        Some(s) => if lower(trim(s)).len() == 0 {
            Ok(None)
        } else if known_conflict_status(lower(trim(s))) {
            Ok(Some(lower(trim(s))))
        } else {
            Err("Invalid conflict status filter."@)
        },
    }
}

pub fn normalize_status_filter(status: &Option<String>) -> (r: Result<Option<String>, String>)
    ensures
        match r {
            Ok(v) => Ok::<Option<Seq<char>>, Seq<char>>(opt_str_view(v)) == status_filter_result(
                opt_str_view(*status),
            ),
            Err(e) => Err::<Option<Seq<char>>, Seq<char>>(e@) == status_filter_result(
                opt_str_view(*status),
            ),
        },
{
    match status {
        None => Ok(None),
        Some(s) => {
            let value = to_ascii_lower(trim_str(s.as_str()));
            if value.as_str().unicode_len() == 0 {
                return Ok(None);
            }
            if str_eq(value.as_str(), "pending") || str_eq(value.as_str(), "resolved_keep_current")
                || str_eq(value.as_str(), "resolved_use_candidate") {
                Ok(Some(value))
            } else {
                Err(String::from_str("Invalid conflict status filter."))
            }
        },
    }
}

/// A resolution, trimmed and lower-cased: `keep_current` or `use_candidate`.
pub open spec fn resolution_result(resolution: Seq<char>) -> Result<Seq<char>, Seq<char>> {
    let r = lower(trim(resolution));
    if r == "keep_current"@ || r == "use_candidate"@ {
        Ok(r)
    } else {
        Err("Resolution must be 'keep_current' or 'use_candidate'."@)
    }
}

pub fn normalize_resolution(resolution: &str) -> (r: Result<String, String>)
    ensures
        match r {
            Ok(v) => Ok::<Seq<char>, Seq<char>>(v@) == resolution_result(resolution@),
            Err(e) => Err::<Seq<char>, Seq<char>>(e@) == resolution_result(resolution@),
        },
{
    let value = to_ascii_lower(trim_str(resolution));
    if str_eq(value.as_str(), "keep_current") || str_eq(value.as_str(), "use_candidate") {
        Ok(value)
    } else {
        Err(String::from_str("Resolution must be 'keep_current' or 'use_candidate'."))
    }
}

/// Only pending conflicts can be resolved.
pub fn require_pending(status: &str) -> (r: Result<(), String>)
    ensures
        r is Ok <==> status@ == "pending"@,
        r matches Err(e) ==> e@ == "Only pending conflicts can be resolved."@,
{
    if !str_eq(status, "pending") {
        return Err(String::from_str("Only pending conflicts can be resolved."));
    }
    Ok(())
}

/// The status a resolution leaves a conflict in.
pub fn resolved_status(resolution: &str) -> (r: &'static str)
    ensures
        resolution@ == "use_candidate"@ ==> r@ == "resolved_use_candidate"@,
        resolution@ != "use_candidate"@ ==> r@ == "resolved_keep_current"@,
{
    if str_eq(resolution, "use_candidate") {
        "resolved_use_candidate"
    } else {
        "resolved_keep_current"
    }
}

/// The rationale stored with a resolution: trimmed, and absent when blank.
pub fn normalize_rationale(rationale: &Option<String>) -> (r: Option<String>)
    ensures
        opt_str_view(r) == optional_trimmed(opt_str_view(*rationale)),
{
    normalize_optional_trimmed(rationale)
}

/// Resolving must change exactly the one conflict row that was still pending.
pub fn require_single_resolution(rows_affected: u64) -> (r: Result<(), String>)
    ensures
        r is Ok <==> rows_affected == 1,
        r matches Err(e) ==> e@ == "Metadata conflict is no longer pending."@,
{
    if rows_affected != 1 {
        return Err(String::from_str("Metadata conflict is no longer pending."));
    }
    Ok(())
}

proof fn lemma_field_names_distinct()
    ensures
        "title"@ != "authors"@,
        "title"@ != "language"@,
        "title"@ != "published_at"@,
        "authors"@ != "language"@,
        "authors"@ != "published_at"@,
        "language"@ != "published_at"@,
{
    reveal_strlit("title");
    reveal_strlit("authors");
    reveal_strlit("language");
    reveal_strlit("published_at");
    assert("title"@[0] != "authors"@[0]);
    assert("title"@[0] != "language"@[0]);
    assert("title"@[0] != "published_at"@[0]);
    assert("authors"@[0] != "language"@[0]);
    assert("authors"@[0] != "published_at"@[0]);
    assert("language"@[0] != "published_at"@[0]);
}

/// The optional value a stored candidate stands for: blank text means no value.
pub open spec fn candidate_option(value: Seq<char>) -> Option<Seq<char>> {
    if trim(value).len() == 0 {
        None
    } else {
        Some(value)
    }
}

/// What adopting a conflict's candidate value gives: the named field takes the candidate
/// (authors read from their JSON list), every other field keeps its current value, and
/// tags and collections are left alone; an unknown field, or authors that are not a JSON
/// list of strings, give an error.
pub open spec fn candidate_update_result(
    current: LibraryItemMetadata,
    f: Seq<char>,
    candidate_value: Seq<char>,
    r: Result<UpdateLibraryItemMetadataInput, String>,
) -> bool {
    &&& (f != "title"@ && f != "authors"@ && f != "language"@ && f != "published_at"@) ==> (r matches Err(
        e,
    ) && e@ == "Unsupported conflict field."@)
    &&& f == "authors"@ && parsed_string_list(candidate_value) is None ==> (r matches Err(e) && e@
        == "Unable to apply metadata conflict resolution."@)
    &&& r matches Ok(u) ==> u.item_id == current.id && u.tags is None && u.collections is None && (
    if f == "title"@ {
        u.title@ == candidate_value && u.authors@ == current.authors@ && u.language
            == current.language && u.published_at == current.published_at
    } else if f == "authors"@ {
        Some(strings_view(u.authors@)) == parsed_string_list(candidate_value) && u.title
            == current.title && u.language == current.language && u.published_at
            == current.published_at
    } else if f == "language"@ {
        opt_str_view(u.language) == candidate_option(candidate_value) && u.title == current.title
            && u.authors@ == current.authors@ && u.published_at == current.published_at
    } else {
        f == "published_at"@ && opt_str_view(u.published_at) == candidate_option(candidate_value)
            && u.title == current.title && u.authors@ == current.authors@ && u.language
            == current.language
    })
    &&& (f == "title"@ || f == "language"@ || f == "published_at"@ || (f == "authors"@
        && parsed_string_list(candidate_value) is Some)) ==> r is Ok
}

/// The update that adopts a conflict's candidate value.
pub fn candidate_update(current: LibraryItemMetadata, field_name: &str, candidate_value: &str) -> (r:
    Result<UpdateLibraryItemMetadataInput, String>)
    ensures
        candidate_update_result(current, field_name@, candidate_value@, r),
{
    proof {
        lemma_field_names_distinct();
    }
    let mut update = UpdateLibraryItemMetadataInput {
        item_id: current.id,
        title: current.title,
        authors: current.authors,
        language: current.language,
        published_at: current.published_at,
        tags: None,
        collections: None,
    };
    if str_eq(field_name, "title") {
        update.title = String::from_str(candidate_value);
    } else if str_eq(field_name, "authors") {
        match json_parse_string_list(candidate_value) {
            Some(v) => {
                assert(v.deep_view() =~= strings_view(v@));
                update.authors = v;
            },
            None => {
                return Err(String::from_str("Unable to apply metadata conflict resolution."));
            },
        }
    } else if str_eq(field_name, "language") {
        update.language = if trim_str(candidate_value).unicode_len() == 0 {
            None
        } else {
            Some(String::from_str(candidate_value))
        };
    } else if str_eq(field_name, "published_at") {
        update.published_at = if trim_str(candidate_value).unicode_len() == 0 {
            None
        } else {
            Some(String::from_str(candidate_value))
        };
    } else {
        return Err(String::from_str("Unsupported conflict field."));
    }
    Ok(update)
}

/// The conflict to resolve: the stored row, which must exist and still be pending.
pub fn check_resolvable(row: Option<MetadataConflictRow>) -> (r: Result<MetadataConflictRow, String>)
    ensures
        row is None ==> (r matches Err(e) && e@ == "Metadata conflict not found."@),
        row matches Some(c) ==> (c.status@ == "pending"@ ==> r == Ok::<MetadataConflictRow, String>(
            c,
        )) && (c.status@ != "pending"@ ==> (r matches Err(e) && e@
            == "Only pending conflicts can be resolved."@)),
{
    match row {
        None => Err(String::from_str("Metadata conflict not found.")),
        Some(c) => {
            match require_pending(c.status.as_str()) {
                Ok(()) => Ok(c),
                Err(e) => Err(e),
            }
        },
    }
}

/// What resolving a conflict does to its item.
pub enum ResolutionStep {
    /// The item stays exactly as it is.
    Keep(LibraryItemMetadata),
    /// The item is updated with this input.
    Update(UpdateLibraryItemMetadataInput),
}

/// Decides what a (normalized) resolution does to the conflict's item: keeping the current
/// value leaves the item unchanged; using the candidate updates it with the candidate value.
pub fn plan_resolution(resolution: &str, current: LibraryItemMetadata, conflict: &MetadataConflictRow) -> (r:
    Result<ResolutionStep, String>)
    ensures
        resolution@ != "use_candidate"@ ==> r == Ok::<ResolutionStep, String>(
            ResolutionStep::Keep(current),
        ),
        resolution@ == "use_candidate"@ ==> match r {
            Ok(ResolutionStep::Update(u)) => candidate_update_result(
                current,
                conflict.field_name@,
                conflict.candidate_value@,
                Ok(u),
            ),
            Ok(ResolutionStep::Keep(_)) => false,
            Err(e) => candidate_update_result(
                current,
                conflict.field_name@,
                conflict.candidate_value@,
                Err(e),
            ),
        },
{
    if str_eq(resolution, "use_candidate") {
        match candidate_update(current, conflict.field_name.as_str(), conflict.candidate_value.as_str()) {
            Ok(u) => Ok(ResolutionStep::Update(u)),
            Err(e) => Err(e),
        }
    } else {
        Ok(ResolutionStep::Keep(current))
    }
}

/// Whether some listed conflict is about the named field.
pub open spec fn mentions_field(e: Seq<(Seq<char>, Seq<char>, Seq<char>)>, field: Seq<char>) -> bool {
    exists|i: int| 0 <= i < e.len() && (#[trigger] e[i]).0 == field
}

/// For a valid candidate, every field raises a conflict exactly when the candidate sets it
/// (after normalisation) to a value other than the item's current one, and a field the
/// candidate leaves unset raises none. The conflict carries the current value (an absent one
/// as empty text) and the candidate value; so a date proposed for an item without one is
/// always a conflict.
pub proof fn lemma_conflicts_follow_differences(
    current: LibraryItemMetadata,
    c: MetadataConflictCandidateInput,
)
    requires
        candidate_error(c) is None,
    ensures
        ({
            let e = expected_conflicts(current, c);
            let cur_lang = opt_str_view(current.language);
            let cur_date = opt_str_view(current.published_at);
            &&& e.len() <= 4
            &&& match c.title {
                Some(v) => {
                    let t = title_result(v@)->Ok_0;
                    &&& e.contains(("title"@, current.title@, t)) <==> t != current.title@
                    &&& mentions_field(e, "title"@) <==> t != current.title@
                },
                None => !mentions_field(e, "title"@),
            }
            &&& match c.authors {
                Some(v) => {
                    let a = authors_result(strings_view(v@))->Ok_0;
                    &&& e.contains(
                        (
                            "authors"@,
                            json_string_array(strings_view(current.authors@)),
                            json_string_array(a),
                        ),
                    ) <==> a != strings_view(current.authors@)
                    &&& mentions_field(e, "authors"@) <==> a != strings_view(current.authors@)
                },
                None => !mentions_field(e, "authors"@),
            }
            &&& match language_result(opt_str_view(c.language))->Ok_0 {
                Some(v) => {
                    &&& e.contains(("language"@, opt_text(cur_lang), v)) <==> Some(v) != cur_lang
                    &&& mentions_field(e, "language"@) <==> Some(v) != cur_lang
                    &&& cur_lang is None ==> e.contains(("language"@, Seq::<char>::empty(), v))
                },
                None => !mentions_field(e, "language"@),
            }
            &&& match published_at_result(opt_str_view(c.published_at))->Ok_0 {
                Some(v) => {
                    &&& e.contains(("published_at"@, opt_text(cur_date), v)) <==> Some(v) != cur_date
                    &&& mentions_field(e, "published_at"@) <==> Some(v) != cur_date
                    &&& cur_date is None ==> e.contains(("published_at"@, Seq::<char>::empty(), v))
                },
                None => !mentions_field(e, "published_at"@),
            }
        }),
{
    lemma_field_names_distinct();
    let t = title_conflicts(current, c);
    let a = authors_conflicts(current, c);
    let l = language_conflicts(current, c);
    let p = published_at_conflicts(current, c);
    let e = expected_conflicts(current, c);
    assert(e == t + a + l + p);
    assert forall|i: int| 0 <= i < e.len() implies {
        ||| (i < t.len() && e[i] == t[i])
        ||| (t.len() <= i < t.len() + a.len() && e[i] == a[i - t.len()])
        ||| (t.len() + a.len() <= i < t.len() + a.len() + l.len() && e[i] == l[i - t.len()
            - a.len()])
        ||| (t.len() + a.len() + l.len() <= i && e[i] == p[i - t.len() - a.len() - l.len()])
    } by {}
    if t.len() > 0 {
        assert(e[0] == t[0]);
    }
    if a.len() > 0 {
        assert(e[t.len() as int] == a[0]);
    }
    if l.len() > 0 {
        assert(e[(t.len() + a.len()) as int] == l[0]);
    }
    if p.len() > 0 {
        assert(e[(t.len() + a.len() + l.len()) as int] == p[0]);
    }
}

/// A candidate that matches the item in every field it sets raises no conflict.
pub proof fn lemma_matching_candidate_raises_nothing(
    current: LibraryItemMetadata,
    c: MetadataConflictCandidateInput,
)
    requires
        candidate_error(c) is None,
        c.title matches Some(v) ==> title_result(v@)->Ok_0 == current.title@,
        c.authors matches Some(v) ==> authors_result(strings_view(v@))->Ok_0 == strings_view(
            current.authors@,
        ),
        language_result(opt_str_view(c.language))->Ok_0 matches Some(v) ==> Some(v)
            == opt_str_view(current.language),
        published_at_result(opt_str_view(c.published_at))->Ok_0 matches Some(v) ==> Some(v)
            == opt_str_view(current.published_at),
    ensures
        expected_conflicts(current, c).len() == 0,
{
}

} // verus!
