//! JSON text for the values the library stores: string lists (author lists) and the
//! payload that identifies a batch run. Writing and parsing come from `serde_json`; the
//! run payload, which has no type of its own, is framed here around `serde_json`'s strings.
use vstd::prelude::*;
use vstd::string::*;

verus! {

/// A lowercase hexadecimal digit.
pub open spec fn hex_digit_lower(n: u32) -> char {
    if n < 10 {
        (48 + n) as char
    } else {
        (87 + n) as char
    }
}

/// How one character appears inside a JSON string: quote and backslash escaped with a
/// backslash, backspace, tab, line feed, form feed and carriage return by their short
/// escapes, every other control character below U+0020 as `\u00` and two lowercase hex
/// digits, and everything else as itself.
pub open spec fn json_escape_char(c: char) -> Seq<char> {
    let n = c as u32;
    if c == '"' {
        seq!['\\', '"']
    } else if c == '\\' {
        seq!['\\', '\\']
    } else if n == 8 {
        seq!['\\', 'b']
    } else if n == 9 {
        seq!['\\', 't']
    } else if n == 10 {
        seq!['\\', 'n']
    } else if n == 12 {
        seq!['\\', 'f']
    } else if n == 13 {
        seq!['\\', 'r']
    } else if n < 32 {
        seq!['\\', 'u', '0', '0', hex_digit_lower(n / 16), hex_digit_lower(n % 16)]
    } else {
        seq![c]
    }
}

/// The escaped characters of a string, in order.
pub open spec fn json_escaped(s: Seq<char>) -> Seq<char>
    decreases s.len(),
{
    if s.len() == 0 {
        Seq::empty()
    } else {
        json_escaped(s.drop_last()) + json_escape_char(s.last())
    }
}

/// The JSON text that `serde_json` writes for a string: the escaped string in double quotes.
pub open spec fn json_string_text(s: Seq<char>) -> Seq<char> {
    seq!['"'] + json_escaped(s) + seq!['"']
}

/// The string list that `serde_json` reads from a JSON text, or `None` where the text is
/// not a JSON array of strings.
pub uninterp spec fn parsed_string_list(text: Seq<char>) -> Option<Seq<Seq<char>>>;

/// Calls `serde_json::to_string` on a string. Claims the result is the string in double
/// quotes, escaped as `json_escape_char` says (the compact formatter's escaping);
/// serialising a string into memory does not fail.
#[verifier::external_body]
pub(crate) fn json_quote(s: &str) -> (r: String)
    ensures
        r@ == json_string_text(s@),
{
    serde_json::to_string(s).unwrap_or_default()
}

/// Calls `serde_json::from_str::<Vec<String>>`. Claims the result is `serde_json`'s reading
/// of `text` as a list of strings, `None` where it rejects the text.
#[verifier::external_body]
pub(crate) fn json_parse_string_list(text: &str) -> (r: Option<Vec<String>>)
    ensures
        r.deep_view() == parsed_string_list(text@),
{
    serde_json::from_str::<Vec<String>>(text).ok()
}

/// Quoted elements joined with commas.
pub open spec fn json_items(items: Seq<Seq<char>>) -> Seq<char>
    decreases items.len(),
{
    if items.len() == 0 {
        Seq::empty()
    } else if items.len() == 1 {
        json_string_text(items[0])
    } else {
        json_items(items.drop_last()) + seq![','] + json_string_text(items.last())
    }
}

/// The compact JSON array of strings, as `serde_json::to_string` writes a `Vec<String>`.
pub open spec fn json_string_array(items: Seq<Seq<char>>) -> Seq<char> {
    seq!['['] + json_items(items) + seq![']']
}

/// Appends the JSON array of `items`.
pub fn push_json_string_array(out: &mut String, items: &Vec<String>)
    ensures
        final(out)@ == old(out)@ + json_string_array(items.deep_view()),
{
    let ghost start = out@;
    proof {
        reveal_strlit("[");
    }
    out.append("[");
    let mut i: usize = 0;
    while i < items.len()
        invariant
            i <= items@.len(),
            out@ == start + seq!['['] + json_items(items.deep_view().take(i as int)),
        decreases items@.len() - i,
    {
        proof {
            reveal_strlit(",");
        }
        if i > 0 {
            out.append(",");
        }
        let q = json_quote(items[i].as_str());
        out.append(q.as_str());
        proof {
            let t = items.deep_view().take(i as int + 1);
            assert(t.drop_last() =~= items.deep_view().take(i as int));
            assert(t.last() == items@[i as int]@);
            if i == 0 {
                assert(t.len() == 1);
            }
        }
        i += 1;
    }
    proof {
        reveal_strlit("]");
    }
    out.append("]");
    assert(items.deep_view().take(items@.len() as int) =~= items.deep_view());
}

/// Calls `serde_json::to_string` on a list of strings. Claims the result is the compact
/// array: `[`, each string's JSON text separated by commas, `]`; serialising strings into
/// memory does not fail.
#[verifier::external_body]
pub(crate) fn to_json_string_array(items: &Vec<String>) -> (s: String)
    ensures
        s@ == json_string_array(items.deep_view()),
{
    serde_json::to_string(items).unwrap_or_default()
}

/// A stored JSON list of strings, or the empty list where it does not parse.
pub open spec fn string_list_or_empty(text: Seq<char>) -> Seq<Seq<char>> {
    match parsed_string_list(text) {
        Some(v) => v,
        None => Seq::empty(),
    }
}

/// Reads a stored author list; an unreadable value reads as no authors.
pub fn parse_string_list_or_empty(text: &str) -> (r: Vec<String>)
    ensures
        r.deep_view() == string_list_or_empty(text@),
{
    match json_parse_string_list(text) {
        Some(v) => v,
        None => Vec::new(),
    }
}

} // verus!
