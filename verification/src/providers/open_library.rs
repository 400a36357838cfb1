//! The Open Library provider: the requests it sends and how it reads a book or a search
//! result.
use crate::metadata_enrichment::CandidateFields;
use crate::providers::{has_iso_date_shape, http_success, is_http_success, iso_date_shape, normalize_publish_date, publish_date_of, status_message};
use crate::text::{chars_of, decimal, is_ascii_lower, is_lower, lemma_decimal_len, push_decimal, trim, trim_str, zero_padded};
use vstd::prelude::*;
use vstd::string::*;

verus! {

/// The address of the book record for an ISBN.
pub open spec fn isbn_url_of(isbn: Seq<char>) -> Seq<char> {
    "https://openlibrary.org/isbn/"@ + isbn + ".json"@
}

/// The author a search asks for: the first one, or none.
pub open spec fn search_author_of(authors: Seq<Seq<char>>) -> Seq<char> {
    if authors.len() > 0 {
        authors[0]
    } else {
        Seq::empty()
    }
}

/// A two-letter lower-case language code, once surrounding whitespace is dropped.
pub open spec fn language_code_of(raw: Seq<char>) -> Option<Seq<char>> {
    let t = trim(raw);
    if t.len() == 2 && is_ascii_lower(t[0]) && is_ascii_lower(t[1]) {
        Some(t)
    } else {
        None
    }
}

/// A first publication year, read as the first of January of that year, written with at
/// least four digits; a year that is not positive is dropped.
pub open spec fn year_day_of(year: Option<i32>) -> Option<Seq<char>> {
    match year {
        Some(y) => if y > 0 {
            Some(zero_padded(y as nat, 4) + "-01-01"@)
        } else {
            None
        },
        None => None,
    }
}

/// The author names that are present, in order.
pub open spec fn present_names(names: Seq<Option<Seq<char>>>) -> Seq<Seq<char>>
    decreases names.len(),
{
    if names.len() == 0 {
        Seq::empty()
    } else {
        let rest = present_names(names.drop_last());
        match names.last() {
            Some(n) => rest.push(n),
            None => rest,
        }
    }
}

pub fn isbn_url(isbn: &str) -> (u: String)
    ensures
        u@ == isbn_url_of(isbn@),
{
    let mut url = String::from_str("https://openlibrary.org/isbn/");
    url.append(isbn);
    url.append(".json");
    url
}

pub fn search_author(authors: &Vec<String>) -> (a: String)
    ensures
        a@ == search_author_of(authors.deep_view()),
{
    if authors.len() > 0 {
        authors[0].clone()
    } else {
        String::new()
    }
}

/// The status of an ISBN request: found (`Ok(true)`), unknown (404, `Ok(false)`), or an
/// error that names the status.
pub fn check_isbn_status(status: u16) -> (r: Result<bool, String>)
    ensures
        r == Ok::<bool, String>(true) <==> http_success(status),
        r == Ok::<bool, String>(false) <==> status == 404,
        r matches Err(e) ==> e@ == "Open Library ISBN returned HTTP "@ + decimal(status as nat),
        r is Err <==> status != 404 && !http_success(status),
{
    if status == 404 {
        Ok(false)
    } else if !is_http_success(status) {
        Err(status_message("Open Library ISBN returned HTTP ", status))
    } else {
        Ok(true)
    }
}

/// The status of a search request: a success, or an error that names the status.
pub fn check_search_status(status: u16) -> (r: Result<(), String>)
    ensures
        r is Ok <==> http_success(status),
        r matches Err(e) ==> e@ == "Open Library search returned HTTP "@ + decimal(status as nat),
{
    if is_http_success(status) {
        Ok(())
    } else {
        Err(status_message("Open Library search returned HTTP ", status))
    }
}

/// A book's publication date read as a day (see `publish_date_of`).
pub fn parse_publish_date(value: &str) -> (r: Option<String>)
    ensures
        r.deep_view() == publish_date_of(value@),
{
    normalize_publish_date(value)
}

/// Whether `value` is a date of the form `YYYY-MM-DD`, read as digits only.
pub fn is_iso_date(value: &str) -> (r: bool)
    ensures
        r == iso_date_shape(value@),
{
    has_iso_date_shape(value)
}

pub fn normalize_language(raw: &str) -> (r: Option<String>)
    ensures
        r.deep_view() == language_code_of(raw@),
{
    let t = trim_str(raw);
    let cs = chars_of(t);
    if cs.len() == 2 && is_lower(cs[0]) && is_lower(cs[1]) {
        Some(String::from_str(t))
    } else {
        None
    }
}

pub fn year_day(year: Option<i32>) -> (r: Option<String>)
    ensures
        r.deep_view() == year_day_of(year),
{
    match year {
        Some(y) => {
            if y <= 0 {
                return None;
            }
            let n = y as u64;
            proof {
                lemma_decimal_len(n as nat);
            }
            let mut day = String::new();
            if n < 1000 {
                day.push('0');
            }
            if n < 100 {
                day.push('0');
            }
            if n < 10 {
                day.push('0');
            }
            let ghost pad = day@;
            assert(pad =~= Seq::new((4 - decimal(n as nat).len()) as nat, |i: int| '0')
                || decimal(n as nat).len() >= 4);
            push_decimal(&mut day, n);
            day.append("-01-01");
            assert(day@ =~= zero_padded(n as nat, 4) + "-01-01"@);
            Some(day)
        },
        None => None,
    }
}

fn present_author_names(names: Vec<Option<String>>) -> (r: Vec<String>)
    ensures
        r.deep_view() == present_names(names.deep_view()),
{
    let mut out: Vec<String> = Vec::new();
    let mut i: usize = 0;
    while i < names.len()
        invariant
            i <= names@.len(),
            out.deep_view() == present_names(names.deep_view().take(i as int)),
        decreases names@.len() - i,
    {
        let ghost before = out.deep_view();
        assert(names.deep_view().take(i as int + 1).drop_last() =~= names.deep_view().take(i as int));
        match &names[i] {
            Some(n) => {
                out.push(n.clone());
                assert(out.deep_view() =~= before.push(n@));
            },
            None => {},
        }
        i += 1;
    }
    assert(names.deep_view().take(names@.len() as int) =~= names.deep_view());
    out
}

/// The candidate an ISBN book record yields: its title, the names of its authors that are
/// present, and its publication date read as a day; no language.
pub fn isbn_book_candidate(
    title: Option<String>,
    author_names: Option<Vec<Option<String>>>,
    publish_date: Option<String>,
) -> (c: CandidateFields)
    ensures
        c.title == title,
        c.authors.deep_view() == match author_names {
            Some(a) => present_names(a.deep_view()),
            None => Seq::empty(),
        },
        c.language is None,
        c.published_at.deep_view() == match publish_date {
            Some(p) => publish_date_of(p@),
            None => None,
        },
{
    let authors = match author_names {
        Some(a) => present_author_names(a),
        None => {
            let empty: Vec<String> = Vec::new();
            assert(empty.deep_view() =~= Seq::<Seq<char>>::empty());
            empty
        },
    };
    let published_at = match &publish_date {
        Some(p) => parse_publish_date(p.as_str()),
        None => None,
    };
    CandidateFields { title, authors, language: None, published_at }
}

/// The candidate a search result yields: its title, its authors (none when absent), its
/// first publication year read as a day, and its first language when that is a two-letter
/// code.
pub fn search_doc_candidate(
    title: Option<String>,
    author_name: Option<Vec<String>>,
    first_publish_year: Option<i32>,
    language: Option<Vec<String>>,
) -> (c: CandidateFields)
    ensures
        c.title == title,
        c.authors.deep_view() == match author_name {
            Some(a) => a.deep_view(),
            None => Seq::empty(),
        },
        c.published_at.deep_view() == year_day_of(first_publish_year),
        c.language.deep_view() == match language {
            Some(l) => if l@.len() > 0 {
                language_code_of(l@[0]@)
            } else {
                None
            },
            None => None,
        },
{
    let authors = match author_name {
        Some(a) => a,
        None => {
            let empty: Vec<String> = Vec::new();
            assert(empty.deep_view() =~= Seq::<Seq<char>>::empty());
            empty
        },
    };
    let code = match &language {
        Some(l) => if l.len() > 0 {
            normalize_language(l[0].as_str())
        } else {
            None
        },
        None => None,
    };
    CandidateFields { title, authors, language: code, published_at: year_day(first_publish_year) }
}

} // verus!
