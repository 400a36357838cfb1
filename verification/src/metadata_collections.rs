//! Tags and collections attached to library items, and the label normalisation shared with
//! author lists: labels are trimmed, blank ones dropped, and a label whose ASCII-lower-cased
//! form was already kept is dropped too.
use crate::text::{lemma_trim_idempotent, lower, str_eq, to_ascii_lower, trim, trim_str};
use vstd::prelude::*;
use vstd::string::*;
use vstd::utf8::encode_utf8;

verus! {

pub struct AssignItemTagsCollectionsInput {
    pub item_id: i64,
    pub tags: Vec<String>,
    pub collections: Vec<String>,
}

#[derive(Debug, Clone)]
pub struct AssignItemTagsCollectionsResult {
    pub item_id: i64,
    pub tags: Vec<String>,
    pub collections: Vec<String>,
}

pub struct ListItemTagsCollectionsInput {
    pub item_id: i64,
}

#[derive(Debug, Clone)]
pub struct ItemTagsCollections {
    pub item_id: i64,
    pub tags: Vec<String>,
    pub collections: Vec<String>,
}

#[derive(Debug, Clone)]
pub struct ListMetadataNamesResult {
    pub names: Vec<String>,
}

/// Whether some kept label has the same ASCII-lower-cased form as `label`.
pub open spec fn has_label_key(kept: Seq<Seq<char>>, label: Seq<char>) -> bool {
    exists|k: int| 0 <= k < kept.len() && lower(#[trigger] kept[k]) == lower(label)
}

/// The labels that normalisation keeps, in input order.
pub open spec fn kept_labels(items: Seq<Seq<char>>) -> Seq<Seq<char>>
    decreases items.len(),
{
    if items.len() == 0 {
        Seq::empty()
    } else {
        let prev = kept_labels(items.drop_last());
        let t = trim(items.last());
        if t.len() == 0 || has_label_key(prev, t) {
            prev
        } else {
            prev.push(t)
        }
    }
}

/// A list of labels that normalisation leaves as it is: each trimmed, none blank, no two
/// with the same ASCII-lower-cased form.
pub open spec fn labels_normal(v: Seq<Seq<char>>) -> bool {
    &&& forall|k: int| 0 <= k < v.len() ==> trim(#[trigger] v[k]) == v[k] && v[k].len() > 0
    &&& forall|a: int, b: int| 0 <= a < b < v.len() ==> lower(#[trigger] v[a]) != lower(#[trigger] v[b])
}

pub proof fn lemma_kept_labels_normal(items: Seq<Seq<char>>)
    ensures
        labels_normal(kept_labels(items)),
    decreases items.len(),
{
    if items.len() > 0 {
        lemma_kept_labels_normal(items.drop_last());
        let prev = kept_labels(items.drop_last());
        let t = trim(items.last());
        lemma_trim_idempotent(items.last());
        if !(t.len() == 0 || has_label_key(prev, t)) {
            let v = prev.push(t);
            assert forall|a: int, b: int| 0 <= a < b < v.len() implies lower(#[trigger] v[a])
                != lower(#[trigger] v[b]) by {
                if b == v.len() - 1 {
                    assert(v[a] == prev[a]);
                }
            }
        }
    }
}

/// Normalising an already normal list gives the list back.
pub proof fn lemma_kept_labels_of_normal(v: Seq<Seq<char>>)
    requires
        labels_normal(v),
    ensures
        kept_labels(v) == v,
    decreases v.len(),
{
    if v.len() > 0 {
        let p = v.drop_last();
        assert(labels_normal(p)) by {
            assert forall|a: int, b: int| 0 <= a < b < p.len() implies lower(#[trigger] p[a])
                != lower(#[trigger] p[b]) by {
                assert(p[a] == v[a] && p[b] == v[b]);
            }
            assert forall|k: int| 0 <= k < p.len() implies trim(#[trigger] p[k]) == p[k]
                && p[k].len() > 0 by {
                assert(p[k] == v[k]);
            }
        }
        lemma_kept_labels_of_normal(p);
        let t = trim(v.last());
        assert(t == v.last());
        assert(!has_label_key(p, t)) by {
            if has_label_key(p, t) {
                let k = choose|k: int| 0 <= k < p.len() && lower(#[trigger] p[k]) == lower(t);
                assert(lower(v[k]) == lower(v[v.len() - 1]));
            }
        }
        assert(p.push(v.last()) =~= v);
    }
}

/// Whether some label, once trimmed, is longer than 64 bytes.
pub open spec fn has_overlong_label(items: Seq<Seq<char>>) -> bool {
    exists|k: int| 0 <= k < items.len() && (encode_utf8(trim(#[trigger] items[k])).len() as usize) > 64
}

fn contains_label_key(kept: &Vec<String>, key: &str) -> (r: bool)
    requires
        key@ == lower(key@),
    ensures
        r == has_label_key(kept.deep_view(), key@),
{
    let mut i: usize = 0;
    while i < kept.len()
        invariant
            i <= kept@.len(),
            key@ == lower(key@),
            forall|k: int| 0 <= k < i ==> lower(#[trigger] kept.deep_view()[k]) != key@,
        decreases kept@.len() - i,
    {
        let lowered = to_ascii_lower(kept[i].as_str());
        if str_eq(lowered.as_str(), key) {
            assert(lower(kept.deep_view()[i as int]) == key@);
            return true;
        }
        i += 1;
    }
    proof {
        if has_label_key(kept.deep_view(), key@) {
            let k = choose|k: int|
                0 <= k < kept.deep_view().len() && lower(#[trigger] kept.deep_view()[k]) == lower(
                    key@,
                );
            lemma_lower_idempotent(key@);
        }
    }
    false
}

pub proof fn lemma_lower_idempotent(s: Seq<char>)
    ensures
        lower(lower(s)) == lower(s),
{
    assert(lower(lower(s)) =~= lower(s));
}

/// Trims, drops blanks and drops case-insensitive repeats; stops with `Err(())` at a
/// trimmed label longer than `max_bytes` bytes when a limit is given.
pub fn dedupe_labels(values: &[String], max_bytes: Option<usize>) -> (r: Result<Vec<String>, ()>)
    ensures
        max_bytes is None ==> r is Ok,
        max_bytes matches Some(m) ==> (r is Err <==> exists|k: int|
            0 <= k < values@.len() && (encode_utf8(trim(#[trigger] values@[k]@)).len() as usize) > m),
        r matches Ok(v) ==> v.deep_view() == kept_labels(values@.map_values(|s: String| s@)),
{
    let ghost items = values@.map_values(|s: String| s@);
    let mut normalized: Vec<String> = Vec::new();
    let mut i: usize = 0;
    while i < values.len()
        invariant
            i <= values@.len(),
            items == values@.map_values(|s: String| s@),
            normalized.deep_view() == kept_labels(items.take(i as int)),
            max_bytes matches Some(m) ==> forall|k: int|
                0 <= k < i ==> (encode_utf8(trim(#[trigger] values@[k]@)).len() as usize) <= m,
        decreases values@.len() - i,
    {
        let trimmed = trim_str(values[i].as_str());
        assert(items.take(i as int + 1).drop_last() =~= items.take(i as int));
        assert(items.take(i as int + 1).last() == values@[i as int]@);
        match max_bytes {
            Some(m) => {
                if trimmed.len() > m {
                    assert((encode_utf8(trim(values@[i as int]@)).len() as usize) > m);
                    return Err(());
                }
                assert((encode_utf8(trim(values@[i as int]@)).len() as usize) <= m);
            },
            None => {},
        }
        if trimmed.unicode_len() > 0 {
            let key = to_ascii_lower(trimmed);
            proof {
                lemma_lower_idempotent(trimmed@);
            }
            if !contains_label_key(&normalized, key.as_str()) {
                proof {
                    assert(!has_label_key(normalized.deep_view(), trimmed@)) by {
                        if has_label_key(normalized.deep_view(), trimmed@) {
                            let k = choose|k: int|
                                0 <= k < normalized.deep_view().len() && lower(
                                    #[trigger] normalized.deep_view()[k],
                                ) == lower(trimmed@);
                            assert(lower(normalized.deep_view()[k]) == key@);
                        }
                    }
                }
                normalized.push(String::from_str(trimmed));
                assert(normalized.deep_view() =~= kept_labels(items.take(i as int)).push(
                    trimmed@,
                ));
            } else {
                proof {
                    let k = choose|k: int|
                        0 <= k < normalized.deep_view().len() && lower(
                            #[trigger] normalized.deep_view()[k],
                        ) == lower(key@);
                    assert(lower(normalized.deep_view()[k]) == lower(trimmed@));
                }
            }
        }
        i += 1;
    }
    assert(items.take(values@.len() as int) =~= items);
    Ok(normalized)
}

/// The error for an over-long label of the given kind (`Tag` or `Collection`).
pub open spec fn label_length_error(kind: Seq<char>) -> Seq<char> {
    kind + " labels must be 64 characters or fewer."@
}

/// Normalises tag or collection labels.
pub fn normalize_labels(values: &[String], kind: &str) -> (r: Result<Vec<String>, String>)
    ensures
        r is Err <==> has_overlong_label(values@.map_values(|s: String| s@)),
        r matches Err(e) ==> e@ == label_length_error(kind@),
        r matches Ok(v) ==> v.deep_view() == kept_labels(values@.map_values(|s: String| s@)),
{
    let ghost items = values@.map_values(|s: String| s@);
    match dedupe_labels(values, Some(64)) {
        Ok(v) => {
            proof {
                if has_overlong_label(items) {
                    let k = choose|k: int|
                        0 <= k < items.len() && (encode_utf8(trim(#[trigger] items[k])).len() as usize) > 64;
                    assert(items[k] == values@[k]@);
                }
            }
            Ok(v)
        },
        Err(_) => {
            proof {
                let k = choose|k: int|
                    0 <= k < values@.len() && (encode_utf8(trim(#[trigger] values@[k]@)).len() as usize) > 64;
                assert(items[k] == values@[k]@);
            }
            let mut e = String::from_str(kind);
            e.append(" labels must be 64 characters or fewer.");
            Err(e)
        },
    }
}

/// The result of assigning normalised tags and collections to an item.
pub fn assignment_result(item_id: i64, tags: Vec<String>, collections: Vec<String>) -> (r:
    AssignItemTagsCollectionsResult)
    ensures
        r.item_id == item_id,
        r.tags == tags,
        r.collections == collections,
{
    AssignItemTagsCollectionsResult { item_id, tags, collections }
}

/// An item can only be labelled when it exists.
pub fn require_item_exists(count: i64) -> (r: Result<(), String>)
    ensures
        r is Ok <==> count != 0,
        r matches Err(e) ==> e@ == "Library item not found."@,
{
    if count == 0 {
        return Err(String::from_str("Library item not found."));
    }
    Ok(())
}

/// Groups (item, name) rows by item, keeping row order within each item.
pub fn group_taxonomy_rows(item_ids: &Vec<i64>, rows: &Vec<(i64, String)>) -> (r: Vec<Vec<String>>)
    ensures
        r@.len() == item_ids@.len(),
        forall|k: int|
            0 <= k < item_ids@.len() ==> (#[trigger] r@[k]).deep_view() == names_for(
                rows@,
                item_ids@[k],
            ),
{
    let mut out: Vec<Vec<String>> = Vec::new();
    let mut k: usize = 0;
    while k < item_ids.len()
        invariant
            k <= item_ids@.len(),
            out@.len() == k,
            forall|j: int|
                0 <= j < k ==> (#[trigger] out@[j]).deep_view() == names_for(rows@, item_ids@[j]),
        decreases item_ids@.len() - k,
    {
        let id = item_ids[k];
        let mut names: Vec<String> = Vec::new();
        let mut i: usize = 0;
        while i < rows.len()
            invariant
                i <= rows@.len(),
                names.deep_view() == names_for(rows@.take(i as int), id),
            decreases rows@.len() - i,
        {
            assert(rows@.take(i as int + 1).drop_last() =~= rows@.take(i as int));
            if rows[i].0 == id {
                names.push(rows[i].1.clone());
            }
            i += 1;
        }
        assert(rows@.take(rows@.len() as int) =~= rows@);
        out.push(names);
        k += 1;
    }
    out
}

/// The names of the rows that belong to `item_id`, in row order.
pub open spec fn names_for(rows: Seq<(i64, String)>, item_id: i64) -> Seq<Seq<char>>
    decreases rows.len(),
{
    if rows.len() == 0 {
        Seq::empty()
    } else {
        let prev = names_for(rows.drop_last(), item_id);
        if rows.last().0 == item_id {
            prev.push(rows.last().1@)
        } else {
            prev
        }
    }
}

/// The two kinds of labels an item carries.
#[derive(PartialEq, Eq, Structural, Clone, Copy, Debug)]
pub enum TaxonomyKind {
    Tags,
    Collections,
}

/// `n` bound-value placeholders separated by commas.
pub open spec fn placeholders(n: nat) -> Seq<char>
    decreases n,
{
    if n == 0 {
        Seq::empty()
    } else if n == 1 {
        "?"@
    } else {
        placeholders((n - 1) as nat) + ", ?"@
    }
}

pub open spec fn relation_table(kind: TaxonomyKind) -> Seq<char> {
    match kind {
        TaxonomyKind::Tags => "item_tags"@,
        TaxonomyKind::Collections => "item_collections"@,
    }
}

pub open spec fn names_table(kind: TaxonomyKind) -> Seq<char> {
    match kind {
        TaxonomyKind::Tags => "tags"@,
        TaxonomyKind::Collections => "collections"@,
    }
}

pub open spec fn foreign_key(kind: TaxonomyKind) -> Seq<char> {
    match kind {
        TaxonomyKind::Tags => "tag_id"@,
        TaxonomyKind::Collections => "collection_id"@,
    }
}

/// The query for the labels of `n` items (one placeholder per item id), names in
/// case-insensitive order.
pub open spec fn taxonomy_query_of(kind: TaxonomyKind, n: nat) -> Seq<char> {
    "SELECT rel.library_item_id AS library_item_id, names.name AS name FROM "@ + relation_table(
        kind,
    ) + " rel JOIN "@ + names_table(kind) + " names ON names.id = rel."@ + foreign_key(kind)
        + " WHERE rel.library_item_id IN ("@ + placeholders(n)
        + ") ORDER BY names.name COLLATE NOCASE ASC"@
}

pub fn taxonomy_query(kind: TaxonomyKind, item_count: usize) -> (q: String)
    ensures
        q@ == taxonomy_query_of(kind, item_count as nat),
{
    let (relation, names, key) = match kind {
        TaxonomyKind::Tags => ("item_tags", "tags", "tag_id"),
        TaxonomyKind::Collections => ("item_collections", "collections", "collection_id"),
    };
    let mut query = String::from_str(
        "SELECT rel.library_item_id AS library_item_id, names.name AS name FROM ",
    );
    query.append(relation);
    query.append(" rel JOIN ");
    query.append(names);
    query.append(" names ON names.id = rel.");
    query.append(key);
    query.append(" WHERE rel.library_item_id IN (");
    let ghost head = query@;
    let mut i: usize = 0;
    while i < item_count
        invariant
            i <= item_count,
            query@ == head + placeholders(i as nat),
        decreases item_count - i,
    {
        if i == 0 {
            query.append("?");
        } else {
            query.append(", ?");
        }
        i += 1;
    }
    query.append(") ORDER BY names.name COLLATE NOCASE ASC");
    query
}

} // verus!
