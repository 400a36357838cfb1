//! Metadata providers: the rules both providers share for reading publication dates and
//! HTTP statuses. What each provider asks for and how it reads the answer stand in its own
//! module.
use crate::text::{all_digits, chars_of, decimal, is_ascii_digit, is_digit, is_ws, lemma_trim_idempotent, push_decimal, trim, trim_left, trim_str};
use vstd::prelude::*;
use vstd::string::*;

pub mod google_books;
pub mod open_library;

verus! {

/// Four digits, a hyphen, two digits, a hyphen, two digits: three hyphen-separated parts
/// of 4, 2 and 2 digits.
pub open spec fn iso_date_shape(s: Seq<char>) -> bool {
    &&& s.len() == 10
    &&& s[4] == '-'
    &&& s[7] == '-'
    &&& forall|i: int| 0 <= i < 10 && i != 4 && i != 7 ==> is_ascii_digit(#[trigger] s[i])
}

/// A publication date as a provider reports it, read as a day: a full date is kept, a
/// four-digit year becomes the first of January of that year, anything else is dropped.
/// Surrounding whitespace is ignored.
pub open spec fn publish_date_of(value: Seq<char>) -> Option<Seq<char>> {
    let t = trim(value);
    if iso_date_shape(t) {
        Some(t)
    } else if t.len() == 4 && all_digits(t) {
        Some(t + "-01-01"@)
    } else {
        None
    }
}

proof fn lemma_trim_keeps_clean_ends(s: Seq<char>)
    requires
        s.len() > 0,
        !is_ws(s[0]),
        !is_ws(s.last()),
    ensures
        trim(s) == s,
{
    assert(trim_left(s) == s);
}

/// A date read as a day reads back as itself.
pub proof fn lemma_publish_date_stable(value: Seq<char>)
    ensures
        publish_date_of(value) matches Some(d) ==> publish_date_of(d) == Some(d),
{
    let t = trim(value);
    lemma_trim_idempotent(value);
    if iso_date_shape(t) {
    } else if t.len() == 4 && all_digits(t) {
        reveal_strlit("-01-01");
        let d = t + "-01-01"@;
        assert(is_ascii_digit(t[0]));
        lemma_trim_keeps_clean_ends(d);
        assert forall|i: int| 0 <= i < 10 && i != 4 && i != 7 implies is_ascii_digit(#[trigger] d[i]) by {
            if i < 4 {
                assert(d[i] == t[i]);
            }
        }
        assert(iso_date_shape(d));
    }
}

/// Whether an HTTP status is a success (200 to 299).
pub open spec fn http_success(status: u16) -> bool {
    200 <= status <= 299
}

pub fn has_iso_date_shape(value: &str) -> (r: bool)
    ensures
        r == iso_date_shape(value@),
{
    let cs = chars_of(value);
    if cs.len() != 10 || cs[4] != '-' || cs[7] != '-' {
        return false;
    }
    let mut i: usize = 0;
    while i < 10
        invariant
            i <= 10,
            cs@ == value@,
            cs@.len() == 10,
            forall|k: int| 0 <= k < i && k != 4 && k != 7 ==> is_ascii_digit(#[trigger] cs@[k]),
        decreases 10 - i,
    {
        if i != 4 && i != 7 && !is_digit(cs[i]) {
            return false;
        }
        i += 1;
    }
    true
}

fn all_ascii_digits(cs: &Vec<char>) -> (r: bool)
    ensures
        r == all_digits(cs@),
{
    let mut i: usize = 0;
    while i < cs.len()
        invariant
            i <= cs@.len(),
            forall|k: int| 0 <= k < i ==> is_ascii_digit(#[trigger] cs@[k]),
        decreases cs@.len() - i,
    {
        if !is_digit(cs[i]) {
            return false;
        }
        i += 1;
    }
    true
}

pub fn normalize_publish_date(value: &str) -> (r: Option<String>)
    ensures
        r.deep_view() == publish_date_of(value@),
{
    let t = trim_str(value);
    if has_iso_date_shape(t) {
        return Some(String::from_str(t));
    }
    let cs = chars_of(t);
    if cs.len() == 4 && all_ascii_digits(&cs) {
        let mut day = String::from_str(t);
        day.append("-01-01");
        Some(day)
    } else {
        None
    }
}

/// `prefix` followed by the decimal status code.
pub fn status_message(prefix: &str, status: u16) -> (r: String)
    ensures
        r@ == prefix@ + decimal(status as nat),
{
    let mut message = String::from_str(prefix);
    push_decimal(&mut message, status as u64);
    message
}

pub fn is_http_success(status: u16) -> (r: bool)
    ensures
        r == http_success(status),
{
    200 <= status && status <= 299
}

} // verus!
