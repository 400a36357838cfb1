//! The Google Books provider: the search it sends and how it reads a volume.
use crate::metadata_enrichment::CandidateFields;
use crate::providers::{has_iso_date_shape, http_success, is_http_success, iso_date_shape, normalize_publish_date, publish_date_of, status_message};
use crate::text::decimal;
use vstd::prelude::*;
use vstd::string::*;

verus! {

/// The search for a volume by ISBN.
pub open spec fn isbn_query_of(isbn: Seq<char>) -> Seq<char> {
    "isbn:"@ + isbn
}

/// The search for a volume by title and, when there is one, the first author.
pub open spec fn title_author_query_of(title: Seq<char>, authors: Seq<Seq<char>>) -> Seq<char> {
    if authors.len() > 0 {
        "intitle:"@ + title + " inauthor:"@ + authors[0]
    } else {
        "intitle:"@ + title
    }
}

pub fn isbn_query(isbn: &str) -> (q: String)
    ensures
        q@ == isbn_query_of(isbn@),
{
    let mut query = String::from_str("isbn:");
    query.append(isbn);
    query
}

pub fn title_author_query(title: &str, authors: &Vec<String>) -> (q: String)
    ensures
        q@ == title_author_query_of(title@, authors.deep_view()),
{
    let mut query = String::from_str("intitle:");
    query.append(title);
    if authors.len() > 0 {
        query.append(" inauthor:");
        query.append(authors[0].as_str());
    }
    query
}

/// A reply whose status is not a success is an error that names the status.
pub fn check_response_status(status: u16) -> (r: Result<(), String>)
    ensures
        r is Ok <==> http_success(status),
        r matches Err(e) ==> e@ == "Google Books returned HTTP "@ + decimal(status as nat),
{
    if is_http_success(status) {
        Ok(())
    } else {
        Err(status_message("Google Books returned HTTP ", status))
    }
}

/// A volume's publication date read as a day (see `publish_date_of`).
pub fn normalize_published_date(value: String) -> (r: Option<String>)
    ensures
        r.deep_view() == publish_date_of(value@),
{
    normalize_publish_date(value.as_str())
}

/// Whether `value` is a date of the form `YYYY-MM-DD`, read as digits only.
pub fn is_iso_date(value: &str) -> (r: bool)
    ensures
        r == iso_date_shape(value@),
{
    has_iso_date_shape(value)
}

/// The candidate a volume yields: its title, authors (none when absent), language, and
/// publication date read as a day.
pub fn volume_candidate(
    title: Option<String>,
    authors: Option<Vec<String>>,
    language: Option<String>,
    published_date: Option<String>,
) -> (c: CandidateFields)
    ensures
        c.title == title,
        c.authors.deep_view() == match authors {
            Some(a) => a.deep_view(),
            None => Seq::empty(),
        },
        c.language == language,
        c.published_at.deep_view() == match published_date {
            Some(p) => publish_date_of(p@),
            None => None,
        },
{
    let published_at = match published_date {
        Some(p) => normalize_published_date(p),
        None => None,
    };
    let authors = match authors {
        Some(a) => a,
        None => {
            let empty: Vec<String> = Vec::new();
            assert(empty.deep_view() =~= Seq::<Seq<char>>::empty());
            empty
        },
    };
    CandidateFields { title, authors, language, published_at }
}

} // verus!
