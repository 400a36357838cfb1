//! Library item metadata: the rules that normalise and validate titles, author lists,
//! language tags and publication dates, the listing filters, and the SQL text that the
//! listing runs.
use crate::json::{parse_string_list_or_empty, string_list_or_empty, to_json_string_array, json_string_array};
use crate::metadata_collections::{dedupe_labels, kept_labels, normalize_labels, has_overlong_label, label_length_error};
use crate::order::{chars_le, str_le};
use crate::text::{chars_of, is_ascii_lower, is_ascii_upper, is_digit, is_lower, is_upper, lower, parse_unsigned, parse_unsigned_chars, str_eq, to_ascii_lower, trim, trim_str};
use vstd::prelude::*;
use vstd::string::*;

verus! {

pub struct ListLibraryItemsInput {
    pub page: Option<u32>,
    pub page_size: Option<u32>,
    pub author: Option<String>,
    pub language: Option<String>,
    pub published_from: Option<String>,
    pub published_to: Option<String>,
    pub tag: Option<String>,
    pub collection: Option<String>,
    pub sort_by: Option<String>,
    pub sort_direction: Option<String>,
}

#[derive(Debug)]
pub struct ListLibraryItemsResult {
    pub page: u32,
    pub page_size: u32,
    pub total: i64,
    pub items: Vec<LibraryItemSummary>,
}

#[derive(Debug)]
pub struct LibraryItemSummary {
    pub id: i64,
    pub title: String,
    pub authors: Vec<String>,
    pub language: Option<String>,
    pub published_at: Option<String>,
    pub format: String,
    pub source_path: String,
    pub tags: Vec<String>,
    pub collections: Vec<String>,
}

pub struct GetLibraryItemMetadataInput {
    pub item_id: i64,
}

#[derive(Debug)]
pub struct LibraryItemMetadata {
    pub id: i64,
    pub title: String,
    pub authors: Vec<String>,
    pub language: Option<String>,
    pub published_at: Option<String>,
    pub format: String,
    pub source_path: String,
    pub tags: Vec<String>,
    pub collections: Vec<String>,
}

pub struct UpdateLibraryItemMetadataInput {
    pub item_id: i64,
    pub title: String,
    pub authors: Vec<String>,
    pub language: Option<String>,
    pub published_at: Option<String>,
    pub tags: Option<Vec<String>>,
    pub collections: Option<Vec<String>>,
}

/// A stored item row; `authors` holds a JSON list of strings.
pub struct LibraryItemRow {
    pub id: i64,
    pub title: String,
    pub authors: String,
    pub language: Option<String>,
    pub published_at: Option<String>,
    pub format: String,
    pub source_path: String,
}

pub struct NormalizedListFilters {
    pub author: Option<String>,
    pub language: Option<String>,
    pub published_from: Option<String>,
    pub published_to: Option<String>,
    pub tag: Option<String>,
    pub collection: Option<String>,
    pub sort_expression: &'static str,
    pub sort_desc: bool,
}

/// An update whose fields passed validation, with the author list as stored JSON.
pub struct NormalizedUpdate {
    pub item_id: i64,
    pub title: String,
    pub authors: Vec<String>,
    pub authors_json: String,
    pub language: Option<String>,
    pub published_at: Option<String>,
    pub tags: Option<Vec<String>>,
    pub collections: Option<Vec<String>>,
}

/// The SQL text and bound values of a listing.
pub struct ListQueryPlan {
    pub count_sql: String,
    pub rows_sql: String,
    pub filter_binds: Vec<String>,
    pub limit: i64,
    pub offset: i64,
}

pub open spec fn strings_view(v: Seq<String>) -> Seq<Seq<char>> {
    v.map_values(|s: String| s@)
}

pub open spec fn opt_str_view(o: Option<String>) -> Option<Seq<char>> {
    match o {
        Some(s) => Some(s@),
        None => None,
    }
}

/// Copies a list of strings.
pub fn copy_strings(v: &Vec<String>) -> (r: Vec<String>)
    ensures
        r@ == v@,
{
    let mut r: Vec<String> = Vec::new();
    let mut i: usize = 0;
    while i < v.len()
        invariant
            i <= v@.len(),
            r@ == v@.take(i as int),
        decreases v@.len() - i,
    {
        r.push(v[i].clone());
        assert(r@ =~= v@.take(i as int + 1));
        i += 1;
    }
    assert(v@.take(v@.len() as int) =~= v@);
    r
}

pub fn copy_opt_string(o: &Option<String>) -> (r: Option<String>)
    ensures
        r == *o,
{
    match o {
        Some(s) => Some(s.clone()),
        None => None,
    }
}

/// Two item values with the same fields (lists compared by their contents).
pub open spec fn same_item(a: LibraryItemMetadata, b: LibraryItemMetadata) -> bool {
    &&& a.id == b.id
    &&& a.title == b.title
    &&& a.authors@ == b.authors@
    &&& a.language == b.language
    &&& a.published_at == b.published_at
    &&& a.format == b.format
    &&& a.source_path == b.source_path
    &&& a.tags@ == b.tags@
    &&& a.collections@ == b.collections@
}

impl LibraryItemMetadata {
    /// A field-for-field copy.
    pub fn duplicate(&self) -> (r: Self)
        ensures
            same_item(r, *self),
    {
        LibraryItemMetadata {
            id: self.id,
            title: self.title.clone(),
            authors: copy_strings(&self.authors),
            language: copy_opt_string(&self.language),
            published_at: copy_opt_string(&self.published_at),
            format: self.format.clone(),
            source_path: self.source_path.clone(),
            tags: copy_strings(&self.tags),
            collections: copy_strings(&self.collections),
        }
    }
}

// ---------------------------------------------------------------------------------------
// Field rules
// ---------------------------------------------------------------------------------------
/// Pages start at 1; page sizes default to 50 and lie between 1 and 200.
pub open spec fn normalized_page(page: Option<u32>) -> u32 {
    match page {
        Some(p) => if p >= 1 {
            p
        } else {
            1
        },
        None => 1,
    }
}

pub open spec fn normalized_page_size(page_size: Option<u32>) -> u32 {
    let s = match page_size {
        Some(s) => s,
        None => 50,
    };
    if s < 1 {
        1
    } else if s > 200 {
        200
    } else {
        s
    }
}

pub fn normalize_pagination(page: Option<u32>, page_size: Option<u32>) -> (r: (u32, u32))
    ensures
        r.0 == normalized_page(page),
        r.1 == normalized_page_size(page_size),
        1 <= r.0,
        1 <= r.1 <= 200,
{
    let p = match page {
        Some(p) => p,
        None => 1,
    };
    let normalized_page = if p >= 1 {
        p
    } else {
        1
    };
    let s = match page_size {
        Some(s) => s,
        None => 50,
    };
    let normalized_size = if s < 1 {
        1
    } else if s > 200 {
        200
    } else {
        s
    };
    (normalized_page, normalized_size)
}

/// An optional value trimmed, with blank values dropped.
pub open spec fn optional_trimmed(value: Option<Seq<char>>) -> Option<Seq<char>> {
    match value {
        Some(v) => if trim(v).len() == 0 {
            None
        } else {
            Some(trim(v))
        },
        None => None,
    }
}

pub fn normalize_optional_trimmed(value: &Option<String>) -> (r: Option<String>)
    ensures
        opt_str_view(r) == optional_trimmed(opt_str_view(*value)),
{
    match value {
        Some(candidate) => {
            let trimmed = trim_str(candidate.as_str());
            if trimmed.unicode_len() == 0 {
                None
            } else {
                Some(String::from_str(trimmed))
            }
        },
        None => None,
    }
}

/// Reads a stored author list.
pub fn parse_authors_json(authors: &str) -> (r: Vec<String>)
    ensures
        strings_view(r@) == string_list_or_empty(authors@),
{
    let r = parse_string_list_or_empty(authors);
    assert(strings_view(r@) =~= r.deep_view());
    r
}

pub open spec fn title_result(title: Seq<char>) -> Result<Seq<char>, Seq<char>> {
    if trim(title).len() == 0 {
        Err("Title is required."@)
    } else {
        Ok(trim(title))
    }
}

pub open spec fn res_view(r: Result<String, String>) -> Result<Seq<char>, Seq<char>> {
    match r {
        Ok(v) => Ok(v@),
        Err(e) => Err(e@),
    }
}

pub fn normalize_title(title: &str) -> (r: Result<String, String>)
    ensures
        res_view(r) == title_result(title@),
{
    let normalized = trim_str(title);
    if normalized.unicode_len() == 0 {
        return Err(String::from_str("Title is required."));
    }
    Ok(String::from_str(normalized))
}

pub open spec fn authors_result(authors: Seq<Seq<char>>) -> Result<Seq<Seq<char>>, Seq<char>> {
    if kept_labels(authors).len() == 0 {
        Err("At least one author is required."@)
    } else {
        Ok(kept_labels(authors))
    }
}

/// Trims author names, drops blank ones and case-insensitive repeats; at least one must
/// remain.
pub fn normalize_authors(authors: &[String]) -> (r: Result<Vec<String>, String>)
    ensures
        match (r, authors_result(authors@.map_values(|s: String| s@))) {
            (Ok(v), Ok(w)) => strings_view(v@) == w,
            (Err(e), Err(f)) => e@ == f,
            _ => false,
        },
{
    let normalized = match dedupe_labels(authors, None) {
        Ok(v) => v,
        Err(_) => Vec::new(),
    };
    assert(strings_view(normalized@) =~= normalized.deep_view());
    if normalized.len() == 0 {
        return Err(String::from_str("At least one author is required."));
    }
    Ok(normalized)
}

/// A language tag: two lower-case ASCII letters, optionally followed by `-` and two
/// upper-case ASCII letters (`en`, `en-US`).
pub open spec fn language_tag_valid(s: Seq<char>) -> bool {
    ||| (s.len() == 2 && is_ascii_lower(s[0]) && is_ascii_lower(s[1]))
    ||| (s.len() == 5 && is_ascii_lower(s[0]) && is_ascii_lower(s[1]) && s[2] == '-'
        && is_ascii_upper(s[3]) && is_ascii_upper(s[4]))
}

pub fn is_valid_language_tag(value: &str) -> (r: bool)
    ensures
        r == language_tag_valid(value@),
{
    let cs = chars_of(value);
    if cs.len() == 2 {
        is_lower(cs[0]) && is_lower(cs[1])
    } else if cs.len() == 5 {
        is_lower(cs[0]) && is_lower(cs[1]) && cs[2] == '-' && is_upper(cs[3]) && is_upper(cs[4])
    } else {
        false
    }
}

pub open spec fn language_result(language: Option<Seq<char>>) -> Result<Option<Seq<char>>, Seq<char>> {
    match language {
        None => Ok(None),
        Some(l) => if trim(l).len() == 0 {
            Ok(None)
        } else if !language_tag_valid(trim(l)) {
            Err("Language must be an ISO tag like 'en' or 'en-US'."@)
        } else {
            Ok(Some(trim(l)))
        },
    }
}

pub open spec fn opt_res_view(r: Result<Option<String>, String>) -> Result<Option<Seq<char>>, Seq<char>> {
    match r {
        Ok(v) => Ok(opt_str_view(v)),
        Err(e) => Err(e@),
    }
}

pub fn normalize_language(language: &Option<String>) -> (r: Result<Option<String>, String>)
    ensures
        opt_res_view(r) == language_result(opt_str_view(*language)),
{
    let language = match language {
        Some(l) => l,
        None => {
            return Ok(None);
        },
    };
    let trimmed = trim_str(language.as_str());
    if trimmed.unicode_len() == 0 {
        return Ok(None);
    }
    if !is_valid_language_tag(trimmed) {
        return Err(String::from_str("Language must be an ISO tag like 'en' or 'en-US'."));
    }
    Ok(Some(String::from_str(trimmed)))
}

pub open spec fn leap_year(year: nat) -> bool {
    (year % 4 == 0 && year % 100 != 0) || year % 400 == 0
}

pub fn is_leap_year(year: u32) -> (r: bool)
    ensures
        r == leap_year(year as nat),
{
    (year % 4 == 0 && year % 100 != 0) || year % 400 == 0
}

/// Days in a month of the Gregorian calendar; 0 for a month number out of range.
pub open spec fn days_in_month(year: nat, month: nat) -> nat {
    if month == 1 || month == 3 || month == 5 || month == 7 || month == 8 || month == 10 || month
        == 12 {
        31
    } else if month == 4 || month == 6 || month == 9 || month == 11 {
        30
    } else if month == 2 {
        if leap_year(year) {
            29
        } else {
            28
        }
    } else {
        0
    }
}

/// A calendar date written `YYYY-MM-DD`: three `-`-separated fields of 4, 2 and 2 bytes,
/// each read as an unsigned 32-bit number (an optional `+` and digits), with a year of at
/// least 1, a month from 1 to 12 and a day that exists in that month.
pub open spec fn iso_date_valid(s: Seq<char>) -> bool {
    &&& s.len() == 10
    &&& s[4] == '-'
    &&& s[7] == '-'
    &&& match (
        parse_unsigned(s.subrange(0, 4), 0xffff_ffff),
        parse_unsigned(s.subrange(5, 7), 0xffff_ffff),
        parse_unsigned(s.subrange(8, 10), 0xffff_ffff),
    ) {
        (Some(y), Some(m), Some(d)) => y >= 1 && 1 <= m <= 12 && d >= 1 && d <= days_in_month(
            y,
            m,
        ),
        _ => false,
    }
}

fn parse_field(cs: &Vec<char>, lo: usize, hi: usize) -> (r: Option<u64>)
    requires
        lo <= hi <= cs@.len(),
    ensures
        r matches Some(v) ==> parse_unsigned(cs@.subrange(lo as int, hi as int), 0xffff_ffff)
            == Some(v as nat),
        r is None ==> parse_unsigned(cs@.subrange(lo as int, hi as int), 0xffff_ffff) is None,
{
    let mut part: Vec<char> = Vec::new();
    let mut i = lo;
    while i < hi
        invariant
            lo <= i <= hi <= cs@.len(),
            part@ == cs@.subrange(lo as int, i as int),
        decreases hi - i,
    {
        part.push(cs[i]);
        assert(part@ =~= cs@.subrange(lo as int, i + 1));
        i += 1;
    }
    parse_unsigned_chars(part.as_slice(), 0xffff_ffff)
}

pub fn is_valid_iso_date(value: &str) -> (r: bool)
    ensures
        r == iso_date_valid(value@),
{
    let cs = chars_of(value);
    if cs.len() != 10 || cs[4] != '-' || cs[7] != '-' {
        return false;
    }
    let year = match parse_field(&cs, 0, 4) {
        Some(v) => v,
        None => {
            return false;
        },
    };
    let month = match parse_field(&cs, 5, 7) {
        Some(v) => v,
        None => {
            return false;
        },
    };
    let day = match parse_field(&cs, 8, 10) {
        Some(v) => v,
        None => {
            return false;
        },
    };
    if year < 1 || month < 1 || month > 12 || day < 1 {
        return false;
    }
    let max_day: u64 = if month == 1 || month == 3 || month == 5 || month == 7 || month == 8
        || month == 10 || month == 12 {
        31
    } else if month == 4 || month == 6 || month == 9 || month == 11 {
        30
    } else if is_leap_year(year as u32) {
        29
    } else {
        28
    };
    day <= max_day
}

pub open spec fn published_at_result(value: Option<Seq<char>>) -> Result<Option<Seq<char>>, Seq<char>> {
    match value {
        None => Ok(None),
        Some(v) => if trim(v).len() == 0 {
            Ok(None)
        } else if !iso_date_valid(trim(v)) {
            Err("Published date must be in YYYY-MM-DD format."@)
        } else {
            Ok(Some(trim(v)))
        },
    }
}

pub fn normalize_published_at(published_at: &Option<String>) -> (r: Result<Option<String>, String>)
    ensures
        opt_res_view(r) == published_at_result(opt_str_view(*published_at)),
{
    let value = match published_at {
        Some(v) => v,
        None => {
            return Ok(None);
        },
    };
    let trimmed = trim_str(value.as_str());
    if trimmed.unicode_len() == 0 {
        return Ok(None);
    }
    if !is_valid_iso_date(trimmed) {
        return Err(String::from_str("Published date must be in YYYY-MM-DD format."));
    }
    Ok(Some(String::from_str(trimmed)))
}

// ---------------------------------------------------------------------------------------
// Listing
// ---------------------------------------------------------------------------------------
/// The `ORDER BY` expression for a requested sort key (matched ignoring ASCII case).
pub open spec fn sort_expression_for(sort_by: Option<Seq<char>>) -> Seq<char> {
    match sort_by {
        Some(s) => if lower(s) == "title"@ {
            "LOWER(li.title)"@
        } else if lower(s) == "author"@ {
            "LOWER(COALESCE(json_extract(li.authors, '$[0]'), ''))"@
        } else if lower(s) == "language"@ {
            "LOWER(COALESCE(li.language, ''))"@
        } else if lower(s) == "published_at"@ {
            "COALESCE(li.published_at, '')"@
        } else {
            "li.id"@
        },
        None => "li.id"@,
    }
}

pub open spec fn sort_descending(direction: Option<Seq<char>>) -> bool {
    match direction {
        Some(d) => lower(d) == "desc"@,
        None => false,
    }
}

/// The first error among the filters, in the order they are checked.
pub open spec fn list_filter_error(input: ListLibraryItemsInput) -> Option<Seq<char>> {
    let lang = language_result(opt_str_view(input.language));
    let from = published_at_result(opt_str_view(input.published_from));
    let to = published_at_result(opt_str_view(input.published_to));
    if lang is Err {
        Some(lang->Err_0)
    } else if from is Err {
        Some(from->Err_0)
    } else if to is Err {
        Some(to->Err_0)
    } else if from->Ok_0 is Some && to->Ok_0 is Some && !chars_le(
        from->Ok_0->Some_0,
        to->Ok_0->Some_0,
    ) {
        Some("Published date range is invalid."@)
    } else {
        None
    }
}

pub open spec fn filters_match_input(f: NormalizedListFilters, input: ListLibraryItemsInput) -> bool {
    &&& opt_str_view(f.author) == optional_trimmed(opt_str_view(input.author))
    &&& Ok::<Option<Seq<char>>, Seq<char>>(opt_str_view(f.language)) == language_result(
        opt_str_view(input.language),
    )
    &&& Ok::<Option<Seq<char>>, Seq<char>>(opt_str_view(f.published_from)) == published_at_result(
        opt_str_view(input.published_from),
    )
    &&& Ok::<Option<Seq<char>>, Seq<char>>(opt_str_view(f.published_to)) == published_at_result(
        opt_str_view(input.published_to),
    )
    &&& opt_str_view(f.tag) == optional_trimmed(opt_str_view(input.tag))
    &&& opt_str_view(f.collection) == optional_trimmed(opt_str_view(input.collection))
    &&& f.sort_expression@ == sort_expression_for(opt_str_view(input.sort_by))
    &&& f.sort_desc == sort_descending(opt_str_view(input.sort_direction))
}

fn sort_expression(sort_by: &Option<String>) -> (r: &'static str)
    ensures
        r@ == sort_expression_for(opt_str_view(*sort_by)),
{
    match sort_by {
        Some(s) => {
            let value = to_ascii_lower(s.as_str());
            if str_eq(value.as_str(), "title") {
                "LOWER(li.title)"
            } else if str_eq(value.as_str(), "author") {
                "LOWER(COALESCE(json_extract(li.authors, '$[0]'), ''))"
            } else if str_eq(value.as_str(), "language") {
                "LOWER(COALESCE(li.language, ''))"
            } else if str_eq(value.as_str(), "published_at") {
                "COALESCE(li.published_at, '')"
            } else {
                "li.id"
            }
        },
        None => "li.id",
    }
}

/// Validates and normalises the listing filters.
pub fn normalize_list_filters(input: &ListLibraryItemsInput) -> (r: Result<NormalizedListFilters, String>)
    ensures
        r is Err <==> list_filter_error(*input) is Some,
        r matches Err(e) ==> Some(e@) == list_filter_error(*input),
        r matches Ok(f) ==> filters_match_input(f, *input),
{
    let author = normalize_optional_trimmed(&input.author);
    let language = normalize_language(&input.language)?;
    let published_from = normalize_published_at(&input.published_from)?;
    let published_to = normalize_published_at(&input.published_to)?;
    let tag = normalize_optional_trimmed(&input.tag);
    let collection = normalize_optional_trimmed(&input.collection);
    match (&published_from, &published_to) {
        (Some(from), Some(to)) => {
            if !str_le(from.as_str(), to.as_str()) {
                return Err(String::from_str("Published date range is invalid."));
            }
        },
        _ => {},
    }
    let sort_desc = match &input.sort_direction {
        Some(d) => {
            let value = to_ascii_lower(d.as_str());
            str_eq(value.as_str(), "desc")
        },
        None => false,
    };
    Ok(
        NormalizedListFilters {
            author,
            language,
            published_from,
            published_to,
            tag,
            collection,
            sort_expression: sort_expression(&input.sort_by),
            sort_desc,
        },
    )
}

pub open spec fn clause_if(
    value: Option<String>,
    before: Seq<char>,
    after: Seq<char>,
) -> (Seq<char>, Seq<Seq<char>>) {
    match value {
        Some(v) => (before + "?"@ + after, seq![v@]),
        None => (Seq::empty(), Seq::empty()),
    }
}

/// The SQL appended for each present filter, with one `?` placeholder per bound value,
/// and the bound values in order.
pub open spec fn filter_clauses(f: NormalizedListFilters) -> (Seq<char>, Seq<Seq<char>>) {
    let a = clause_if(
        f.author,
        " AND EXISTS (SELECT 1 FROM json_each(li.authors) author WHERE LOWER(TRIM(author.value)) = LOWER("@,
        "))"@,
    );
    let l = clause_if(f.language, " AND LOWER(li.language) = LOWER("@, ")"@);
    let fr = clause_if(f.published_from, " AND li.published_at >= "@, ""@);
    let to = clause_if(f.published_to, " AND li.published_at <= "@, ""@);
    let t = clause_if(
        f.tag,
        " AND EXISTS (SELECT 1 FROM item_tags item_tag JOIN tags tag ON tag.id = item_tag.tag_id WHERE item_tag.library_item_id = li.id AND LOWER(tag.name) = LOWER("@,
        "))"@,
    );
    let c = clause_if(
        f.collection,
        " AND EXISTS (SELECT 1 FROM item_collections item_collection JOIN collections collection ON collection.id = item_collection.collection_id WHERE item_collection.library_item_id = li.id AND LOWER(collection.name) = LOWER("@,
        "))"@,
    );
    (a.0 + l.0 + fr.0 + to.0 + t.0 + c.0, a.1 + l.1 + fr.1 + to.1 + t.1 + c.1)
}

fn push_clause(
    sql: &mut String,
    binds: &mut Vec<String>,
    value: &Option<String>,
    before: &str,
    after: &str,
)
    ensures
        final(sql)@ == old(sql)@ + clause_if(*value, before@, after@).0,
        strings_view(final(binds)@) == strings_view(old(binds)@) + clause_if(*value, before@, after@).1,
{
    match value {
        Some(v) => {
            sql.append(before);
            sql.append("?");
            sql.append(after);
            let ghost b = binds@;
            binds.push(v.clone());
            assert(strings_view(binds@) =~= strings_view(b) + seq![v@]);
        },
        None => {
            assert(old(sql)@ + Seq::<char>::empty() =~= old(sql)@);
            assert(strings_view(binds@) + Seq::<Seq<char>>::empty() =~= strings_view(binds@));
        },
    }
}

/// Builds the filter part of the listing query.
pub fn filter_sql(f: &NormalizedListFilters) -> (r: (String, Vec<String>))
    ensures
        r.0@ == filter_clauses(*f).0,
        strings_view(r.1@) == filter_clauses(*f).1,
{
    let mut sql = String::new();
    let mut binds: Vec<String> = Vec::new();
    push_clause(
        &mut sql,
        &mut binds,
        &f.author,
        " AND EXISTS (SELECT 1 FROM json_each(li.authors) author WHERE LOWER(TRIM(author.value)) = LOWER(",
        "))",
    );
    push_clause(&mut sql, &mut binds, &f.language, " AND LOWER(li.language) = LOWER(", ")");
    push_clause(&mut sql, &mut binds, &f.published_from, " AND li.published_at >= ", "");
    push_clause(&mut sql, &mut binds, &f.published_to, " AND li.published_at <= ", "");
    push_clause(
        &mut sql,
        &mut binds,
        &f.tag,
        " AND EXISTS (SELECT 1 FROM item_tags item_tag JOIN tags tag ON tag.id = item_tag.tag_id WHERE item_tag.library_item_id = li.id AND LOWER(tag.name) = LOWER(",
        "))",
    );
    push_clause(
        &mut sql,
        &mut binds,
        &f.collection,
        " AND EXISTS (SELECT 1 FROM item_collections item_collection JOIN collections collection ON collection.id = item_collection.collection_id WHERE item_collection.library_item_id = li.id AND LOWER(collection.name) = LOWER(",
        "))",
    );
    assert(sql@ =~= filter_clauses(*f).0);
    assert(strings_view(binds@) =~= filter_clauses(*f).1);
    (sql, binds)
}

pub open spec fn count_sql_of(f: NormalizedListFilters) -> Seq<char> {
    "SELECT COUNT(DISTINCT li.id) FROM library_items li WHERE 1=1"@ + filter_clauses(f).0
}

pub open spec fn rows_sql_of(f: NormalizedListFilters) -> Seq<char> {
    "\n        SELECT DISTINCT li.id, li.title, li.authors, li.language, li.published_at, li.format, li.source_path\n        FROM library_items li\n        WHERE 1=1\n        "@
        + filter_clauses(f).0 + " ORDER BY "@ + f.sort_expression@ + (if f.sort_desc {
        " DESC"@
    } else {
        " ASC"@
    }) + ", li.id ASC"@ + " LIMIT "@ + "?"@ + " OFFSET "@ + "?"@
}

/// The listing queries: a count, and a page of rows ordered by the sort expression and
/// then by id, limited to the page size and offset by the preceding pages.
pub fn plan_list_query(f: &NormalizedListFilters, page: u32, page_size: u32) -> (r: ListQueryPlan)
    requires
        page >= 1,
        (page - 1) * page_size <= u32::MAX,
    ensures
        r.count_sql@ == count_sql_of(*f),
        r.rows_sql@ == rows_sql_of(*f),
        strings_view(r.filter_binds@) == filter_clauses(*f).1,
        r.limit == page_size as i64,
        r.offset == ((page - 1) * page_size) as i64,
{
    let (clauses, binds) = filter_sql(f);
    let mut count_sql = String::from_str("SELECT COUNT(DISTINCT li.id) FROM library_items li WHERE 1=1");
    count_sql.append(clauses.as_str());
    let mut rows_sql = String::from_str(
        "\n        SELECT DISTINCT li.id, li.title, li.authors, li.language, li.published_at, li.format, li.source_path\n        FROM library_items li\n        WHERE 1=1\n        ",
    );
    rows_sql.append(clauses.as_str());
    rows_sql.append(" ORDER BY ");
    rows_sql.append(f.sort_expression);
    rows_sql.append(
        if f.sort_desc {
            " DESC"
        } else {
            " ASC"
        },
    );
    rows_sql.append(", li.id ASC");
    rows_sql.append(" LIMIT ");
    rows_sql.append("?");
    rows_sql.append(" OFFSET ");
    rows_sql.append("?");
    let offset = (page - 1) * page_size;
    ListQueryPlan {
        count_sql,
        rows_sql,
        filter_binds: binds,
        limit: page_size as i64,
        offset: offset as i64,
    }
}

// ---------------------------------------------------------------------------------------
// Rows and updates
// ---------------------------------------------------------------------------------------
pub open spec fn item_from_row(
    m: LibraryItemMetadata,
    row: LibraryItemRow,
    tags: Vec<String>,
    collections: Vec<String>,
) -> bool {
    &&& m.id == row.id
    &&& m.title == row.title
    &&& strings_view(m.authors@) == string_list_or_empty(row.authors@)
    &&& m.language == row.language
    &&& m.published_at == row.published_at
    &&& m.format == row.format
    &&& m.source_path == row.source_path
    &&& m.tags == tags
    &&& m.collections == collections
}

pub fn map_item_row(row: LibraryItemRow, tags: Vec<String>, collections: Vec<String>) -> (m:
    LibraryItemMetadata)
    ensures
        item_from_row(m, row, tags, collections),
{
    let authors = parse_authors_json(row.authors.as_str());
    LibraryItemMetadata {
        id: row.id,
        title: row.title,
        authors,
        language: row.language,
        published_at: row.published_at,
        format: row.format,
        source_path: row.source_path,
        tags,
        collections,
    }
}

pub fn map_summary_row(row: LibraryItemRow, tags: Vec<String>, collections: Vec<String>) -> (m:
    LibraryItemSummary)
    ensures
        m.id == row.id,
        m.title == row.title,
        strings_view(m.authors@) == string_list_or_empty(row.authors@),
        m.language == row.language,
        m.published_at == row.published_at,
        m.format == row.format,
        m.source_path == row.source_path,
        m.tags == tags,
        m.collections == collections,
{
    let authors = parse_authors_json(row.authors.as_str());
    LibraryItemSummary {
        id: row.id,
        title: row.title,
        authors,
        language: row.language,
        published_at: row.published_at,
        format: row.format,
        source_path: row.source_path,
        tags,
        collections,
    }
}

pub open spec fn labels_result(values: Option<Vec<String>>, kind: Seq<char>) -> Result<Option<Seq<Seq<char>>>, Seq<char>> {
    match values {
        None => Ok(None),
        Some(v) => if has_overlong_label(strings_view(v@)) {
            Err(label_length_error(kind))
        } else {
            Ok(Some(kept_labels(strings_view(v@))))
        },
    }
}

/// The first error in an update, in the order the fields are checked.
pub open spec fn update_error(input: UpdateLibraryItemMetadataInput) -> Option<Seq<char>> {
    let t = title_result(input.title@);
    let a = authors_result(strings_view(input.authors@));
    let l = language_result(opt_str_view(input.language));
    let p = published_at_result(opt_str_view(input.published_at));
    let tg = labels_result(input.tags, "Tag"@);
    let co = labels_result(input.collections, "Collection"@);
    if t is Err {
        Some(t->Err_0)
    } else if a is Err {
        Some(a->Err_0)
    } else if l is Err {
        Some(l->Err_0)
    } else if p is Err {
        Some(p->Err_0)
    } else if tg is Err {
        Some(tg->Err_0)
    } else if co is Err {
        Some(co->Err_0)
    } else {
        None
    }
}

pub open spec fn opt_strings_view(o: Option<Vec<String>>) -> Option<Seq<Seq<char>>> {
    match o {
        Some(v) => Some(strings_view(v@)),
        None => None,
    }
}

/// The normalised fields of a valid update.
pub open spec fn update_matches_input(u: NormalizedUpdate, input: UpdateLibraryItemMetadataInput) -> bool {
    &&& u.item_id == input.item_id
    &&& Ok::<Seq<char>, Seq<char>>(u.title@) == title_result(input.title@)
    &&& Ok::<Seq<Seq<char>>, Seq<char>>(strings_view(u.authors@)) == authors_result(
        strings_view(input.authors@),
    )
    &&& u.authors_json@ == json_string_array(strings_view(u.authors@))
    &&& Ok::<Option<Seq<char>>, Seq<char>>(opt_str_view(u.language)) == language_result(
        opt_str_view(input.language),
    )
    &&& Ok::<Option<Seq<char>>, Seq<char>>(opt_str_view(u.published_at)) == published_at_result(
        opt_str_view(input.published_at),
    )
    &&& Ok::<Option<Seq<Seq<char>>>, Seq<char>>(opt_strings_view(u.tags)) == labels_result(
        input.tags,
        "Tag"@,
    )
    &&& Ok::<Option<Seq<Seq<char>>>, Seq<char>>(opt_strings_view(u.collections)) == labels_result(
        input.collections,
        "Collection"@,
    )
}

fn normalize_optional_labels(values: &Option<Vec<String>>, kind: &str) -> (r: Result<Option<Vec<String>>, String>)
    ensures
        match r {
            Ok(v) => Ok::<Option<Seq<Seq<char>>>, Seq<char>>(opt_strings_view(v)) == labels_result(
                *values,
                kind@,
            ),
            Err(e) => Err::<Option<Seq<Seq<char>>>, Seq<char>>(e@) == labels_result(*values, kind@),
        },
{
    match values {
        Some(v) => {
            let r = normalize_labels(v.as_slice(), kind);
            assert(v@.map_values(|s: String| s@) =~= strings_view(v@));
            match r {
                Ok(n) => {
                    assert(strings_view(n@) =~= n.deep_view());
                    Ok(Some(n))
                },
                Err(e) => Err(e),
            }
        },
        None => Ok(None),
    }
}

/// Validates and normalises an update of an item's metadata.
pub fn normalize_update(input: &UpdateLibraryItemMetadataInput) -> (r: Result<NormalizedUpdate, String>)
    ensures
        r is Err <==> update_error(*input) is Some,
        r matches Err(e) ==> Some(e@) == update_error(*input),
        r matches Ok(u) ==> update_matches_input(u, *input),
{
    let title = normalize_title(input.title.as_str())?;
    assert(input.authors@.map_values(|s: String| s@) =~= strings_view(input.authors@));
    let authors = normalize_authors(input.authors.as_slice())?;
    let language = normalize_language(&input.language)?;
    let published_at = normalize_published_at(&input.published_at)?;
    let tags = normalize_optional_labels(&input.tags, "Tag")?;
    let collections = normalize_optional_labels(&input.collections, "Collection")?;
    let authors_json = to_json_string_array(&authors);
    assert(strings_view(authors@) =~= authors.deep_view());
    Ok(
        NormalizedUpdate {
            item_id: input.item_id,
            title,
            authors,
            authors_json,
            language,
            published_at,
            tags,
            collections,
        },
    )
}

/// An update that touched no row means the item does not exist.
pub fn require_updated(rows_affected: u64) -> (r: Result<(), String>)
    ensures
        r is Ok <==> rows_affected != 0,
        r matches Err(e) ==> e@ == "Library item not found."@,
{
    if rows_affected == 0 {
        return Err(String::from_str("Library item not found."));
    }
    Ok(())
}

// ---------------------------------------------------------------------------------------
// Laws
// ---------------------------------------------------------------------------------------
/// Normalising a normalised title gives it back.
pub proof fn lemma_title_normalization_idempotent(title: Seq<char>)
    requires
        title_result(title) is Ok,
    ensures
        title_result(title_result(title)->Ok_0) == title_result(title),
{
    crate::text::lemma_trim_idempotent(title);
}

/// Normalising a normalised author list gives it back.
pub proof fn lemma_authors_normalization_idempotent(authors: Seq<Seq<char>>)
    requires
        authors_result(authors) is Ok,
    ensures
        authors_result(authors_result(authors)->Ok_0) == authors_result(authors),
{
    crate::metadata_collections::lemma_kept_labels_normal(authors);
    crate::metadata_collections::lemma_kept_labels_of_normal(kept_labels(authors));
}

/// Normalising a normalised language tag gives it back.
pub proof fn lemma_language_normalization_idempotent(language: Option<Seq<char>>)
    requires
        language_result(language) is Ok,
    ensures
        language_result(language_result(language)->Ok_0) == language_result(language),
{
    if let Some(l) = language {
        crate::text::lemma_trim_idempotent(l);
    }
}

/// Normalising a normalised publication date gives it back.
pub proof fn lemma_published_at_normalization_idempotent(value: Option<Seq<char>>)
    requires
        published_at_result(value) is Ok,
    ensures
        published_at_result(published_at_result(value)->Ok_0) == published_at_result(value),
{
    if let Some(v) = value {
        crate::text::lemma_trim_idempotent(v);
    }
}

/// Saving again what an update stored changes nothing: the stored title, authors, language
/// and publication date, sent back unchanged with no tags or collections, pass validation and
/// normalise to themselves.
pub proof fn lemma_normalized_update_is_stable(
    u: NormalizedUpdate,
    input: UpdateLibraryItemMetadataInput,
    again: UpdateLibraryItemMetadataInput,
)
    requires
        update_matches_input(u, input),
        again.item_id == u.item_id,
        again.title@ == u.title@,
        strings_view(again.authors@) == strings_view(u.authors@),
        opt_str_view(again.language) == opt_str_view(u.language),
        opt_str_view(again.published_at) == opt_str_view(u.published_at),
        again.tags is None,
        again.collections is None,
    ensures
        update_error(again) is None,
        forall|u2: NormalizedUpdate|
            #[trigger] update_matches_input(u2, again) ==> u2.item_id == u.item_id && u2.title@
                == u.title@ && strings_view(u2.authors@) == strings_view(u.authors@)
                && opt_str_view(u2.language) == opt_str_view(u.language) && opt_str_view(
                u2.published_at,
            ) == opt_str_view(u.published_at) && u2.tags is None && u2.collections is None,
{
    lemma_title_normalization_idempotent(input.title@);
    lemma_authors_normalization_idempotent(strings_view(input.authors@));
    lemma_language_normalization_idempotent(opt_str_view(input.language));
    lemma_published_at_normalization_idempotent(opt_str_view(input.published_at));
    assert forall|u2: NormalizedUpdate| #[trigger] update_matches_input(u2, again) implies u2.tags is None
        && u2.collections is None by {
        assert(opt_strings_view(u2.tags) is None);
        assert(opt_strings_view(u2.collections) is None);
    }
}

/// Each of the four documented sort keys (in any ASCII case) orders rows by its own column
/// expression, never by id, and different keys give different orders; any other key, or none,
/// orders by id.
pub proof fn lemma_sort_keys_choose_columns(sort_by: Option<Seq<char>>, other: Option<Seq<char>>)
    ensures
        sort_by matches Some(s) && lower(s) == "title"@ ==> sort_expression_for(sort_by)
            == "LOWER(li.title)"@,
        sort_by matches Some(s) && lower(s) == "author"@ ==> sort_expression_for(sort_by)
            == "LOWER(COALESCE(json_extract(li.authors, '$[0]'), ''))"@,
        sort_by matches Some(s) && lower(s) == "language"@ ==> sort_expression_for(sort_by)
            == "LOWER(COALESCE(li.language, ''))"@,
        sort_by matches Some(s) && lower(s) == "published_at"@ ==> sort_expression_for(sort_by)
            == "COALESCE(li.published_at, '')"@,
        sort_by matches Some(s) && (lower(s) == "title"@ || lower(s) == "author"@ || lower(s)
            == "language"@ || lower(s) == "published_at"@) ==> sort_expression_for(sort_by)
            != "li.id"@,
        (sort_by matches Some(s) && (lower(s) == "title"@ || lower(s) == "author"@ || lower(s)
            == "language"@ || lower(s) == "published_at"@)) && (other matches Some(o) && (lower(o)
            == "title"@ || lower(o) == "author"@ || lower(o) == "language"@ || lower(o)
            == "published_at"@)) && lower(sort_by->Some_0) != lower(other->Some_0)
            ==> sort_expression_for(sort_by) != sort_expression_for(other),
        sort_by is None ==> sort_expression_for(sort_by) == "li.id"@,
        sort_by matches Some(s) && lower(s) != "title"@ && lower(s) != "author"@ && lower(s)
            != "language"@ && lower(s) != "published_at"@ ==> sort_expression_for(sort_by)
            == "li.id"@,
{
    reveal_strlit("LOWER(li.title)");
    reveal_strlit("LOWER(COALESCE(json_extract(li.authors, '$[0]'), ''))");
    reveal_strlit("LOWER(COALESCE(li.language, ''))");
    reveal_strlit("COALESCE(li.published_at, '')");
    reveal_strlit("li.id");
    reveal_strlit("title");
    reveal_strlit("author");
    reveal_strlit("language");
    reveal_strlit("published_at");
    assert("title"@.len() != "author"@.len());
    assert("title"@.len() != "language"@.len());
    assert("title"@.len() != "published_at"@.len());
    assert("author"@.len() != "language"@.len());
    assert("author"@.len() != "published_at"@.len());
    assert("language"@.len() != "published_at"@.len());
    assert("LOWER(li.title)"@.len() != "LOWER(COALESCE(json_extract(li.authors, '$[0]'), ''))"@.len());
    assert("LOWER(li.title)"@.len() != "LOWER(COALESCE(li.language, ''))"@.len());
    assert("LOWER(li.title)"@.len() != "COALESCE(li.published_at, '')"@.len());
    assert("LOWER(li.title)"@.len() != "li.id"@.len());
    assert("LOWER(COALESCE(json_extract(li.authors, '$[0]'), ''))"@.len() != "LOWER(COALESCE(li.language, ''))"@.len());
    assert("LOWER(COALESCE(json_extract(li.authors, '$[0]'), ''))"@.len() != "COALESCE(li.published_at, '')"@.len());
    assert("LOWER(COALESCE(json_extract(li.authors, '$[0]'), ''))"@.len() != "li.id"@.len());
    assert("LOWER(COALESCE(li.language, ''))"@.len() != "COALESCE(li.published_at, '')"@.len());
    assert("LOWER(COALESCE(li.language, ''))"@.len() != "li.id"@.len());
    assert("COALESCE(li.published_at, '')"@.len() != "li.id"@.len());
}

} // verus!
