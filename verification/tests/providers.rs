use caudex::providers::google_books;
use caudex::providers::open_library::{
    check_isbn_status, check_search_status, is_iso_date, isbn_book_candidate, isbn_url,
    normalize_language, parse_publish_date, search_author, search_doc_candidate, year_day,
};

#[test]
fn year_only_publish_date_is_normalized_to_iso_day() {
    assert_eq!(parse_publish_date("2024").as_deref(), Some("2024-01-01"));
}

#[test]
fn full_iso_publish_date_is_kept() {
    assert_eq!(
        parse_publish_date("2024-12-31").as_deref(),
        Some("2024-12-31")
    );
}

#[test]
fn publish_date_ignores_surrounding_whitespace_and_rejects_other_shapes() {
    assert_eq!(parse_publish_date("  1999 ").as_deref(), Some("1999-01-01"));
    assert_eq!(parse_publish_date("\t2001-02-03\n").as_deref(), Some("2001-02-03"));
    assert_eq!(parse_publish_date("May 2001"), None);
    assert_eq!(parse_publish_date("2001-2-03"), None);
    assert_eq!(parse_publish_date("199"), None);
    assert_eq!(parse_publish_date("19999"), None);
    assert_eq!(parse_publish_date(""), None);
    // The shape is checked, not the calendar.
    assert_eq!(parse_publish_date("2024-13-45").as_deref(), Some("2024-13-45"));
}

#[test]
fn a_normalized_publish_date_is_kept_as_it_is() {
    for raw in ["2024", " 1850 ", "2024-12-31"] {
        let once = parse_publish_date(raw).expect("date should normalize");
        assert_eq!(parse_publish_date(&once).as_deref(), Some(once.as_str()));
    }
}

#[test]
fn iso_date_shape_needs_three_digit_groups() {
    assert!(is_iso_date("2024-01-31"));
    assert!(!is_iso_date("2024/01/31"));
    assert!(!is_iso_date("2024-01-3a"));
    assert!(!is_iso_date("2024-01-311"));
    assert!(!is_iso_date("-2024-01-31"));
    assert!(google_books::is_iso_date("1000-00-00"));
    assert!(!google_books::is_iso_date("10000-00-0"));
}

#[test]
fn google_published_date_matches_open_library_reading() {
    for raw in ["2024", "2024-12-31", "2024-12", "x", " 0001 "] {
        assert_eq!(
            google_books::normalize_published_date(raw.to_string()),
            parse_publish_date(raw)
        );
    }
}

#[test]
fn google_queries_name_isbn_title_and_first_author() {
    assert_eq!(google_books::isbn_query("9781234567890"), "isbn:9781234567890");
    assert_eq!(
        google_books::title_author_query("Dune", &vec!["Frank Herbert".to_string(), "Other".to_string()]),
        "intitle:Dune inauthor:Frank Herbert"
    );
    assert_eq!(google_books::title_author_query("Dune", &vec![]), "intitle:Dune");
}

#[test]
fn google_status_outside_success_range_is_an_error() {
    assert_eq!(google_books::check_response_status(200), Ok(()));
    assert_eq!(google_books::check_response_status(299), Ok(()));
    assert_eq!(
        google_books::check_response_status(503),
        Err("Google Books returned HTTP 503".to_string())
    );
    assert_eq!(
        google_books::check_response_status(199),
        Err("Google Books returned HTTP 199".to_string())
    );
}

#[test]
fn google_volume_becomes_candidate() {
    let c = google_books::volume_candidate(
        Some("Dune".to_string()),
        None,
        Some("en".to_string()),
        Some("1965".to_string()),
    );
    assert_eq!(c.title.as_deref(), Some("Dune"));
    assert!(c.authors.is_empty());
    assert_eq!(c.language.as_deref(), Some("en"));
    assert_eq!(c.published_at.as_deref(), Some("1965-01-01"));

    let c = google_books::volume_candidate(None, Some(vec!["A".to_string()]), None, Some("soon".to_string()));
    assert_eq!(c.authors, vec!["A".to_string()]);
    assert_eq!(c.published_at, None);
}

#[test]
fn open_library_isbn_status_distinguishes_missing_from_errors() {
    assert_eq!(check_isbn_status(200), Ok(true));
    assert_eq!(check_isbn_status(404), Ok(false));
    assert_eq!(
        check_isbn_status(500),
        Err("Open Library ISBN returned HTTP 500".to_string())
    );
    assert_eq!(check_search_status(204), Ok(()));
    assert_eq!(
        check_search_status(404),
        Err("Open Library search returned HTTP 404".to_string())
    );
}

#[test]
fn open_library_requests() {
    assert_eq!(isbn_url("0123456789"), "https://openlibrary.org/isbn/0123456789.json");
    assert_eq!(search_author(&vec!["Ann".to_string(), "Bo".to_string()]), "Ann");
    assert_eq!(search_author(&vec![]), "");
}

#[test]
fn open_library_language_codes_are_two_lower_case_letters() {
    assert_eq!(normalize_language(" en ").as_deref(), Some("en"));
    assert_eq!(normalize_language("EN"), None);
    assert_eq!(normalize_language("eng"), None);
    assert_eq!(normalize_language("e"), None);
    assert_eq!(normalize_language("é1"), None);
}

#[test]
fn open_library_year_becomes_padded_day() {
    assert_eq!(year_day(Some(2020)).as_deref(), Some("2020-01-01"));
    assert_eq!(year_day(Some(812)).as_deref(), Some("0812-01-01"));
    assert_eq!(year_day(Some(7)).as_deref(), Some("0007-01-01"));
    assert_eq!(year_day(Some(12345)).as_deref(), Some("12345-01-01"));
    assert_eq!(year_day(Some(0)), None);
    assert_eq!(year_day(Some(-44)), None);
    assert_eq!(year_day(None), None);
}

#[test]
fn open_library_book_and_search_results_become_candidates() {
    let book = isbn_book_candidate(
        Some("Emma".to_string()),
        Some(vec![Some("Jane Austen".to_string()), None, Some("Editor".to_string())]),
        Some("1815".to_string()),
    );
    assert_eq!(book.title.as_deref(), Some("Emma"));
    assert_eq!(book.authors, vec!["Jane Austen".to_string(), "Editor".to_string()]);
    assert_eq!(book.language, None);
    assert_eq!(book.published_at.as_deref(), Some("1815-01-01"));

    let doc = search_doc_candidate(
        Some("Emma".to_string()),
        Some(vec!["Jane Austen".to_string()]),
        Some(1815),
        Some(vec!["eng".to_string(), "fr".to_string()]),
    );
    assert_eq!(doc.authors, vec!["Jane Austen".to_string()]);
    assert_eq!(doc.published_at.as_deref(), Some("1815-01-01"));
    // Only the first language is considered, and "eng" is not a two-letter code.
    assert_eq!(doc.language, None);

    let doc = search_doc_candidate(None, None, None, Some(vec![" fr".to_string()]));
    assert!(doc.authors.is_empty());
    assert_eq!(doc.language.as_deref(), Some("fr"));
    assert_eq!(doc.published_at, None);
}
