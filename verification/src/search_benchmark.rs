//! The search benchmark's rules: its command line, the synthetic corpus it indexes, the
//! queries it times, and when filling the index is done or has failed.
use crate::text::{chars_of, decimal, parse_unsigned, parse_unsigned_chars, push_decimal, str_eq};
use vstd::prelude::*;
use vstd::string::*;

verus! {

#[derive(Debug, Clone, Copy)]
pub struct BenchmarkConfig {
    pub corpus_size: usize,
    pub query_count: usize,
}

pub open spec fn invalid_number(value: Seq<char>, flag: Seq<char>) -> Seq<char> {
    "Invalid numeric value for "@ + flag + ": "@ + value
}

/// A count given on the command line: what `str::parse::<usize>` accepts, or an error that
/// names the flag and the value.
pub open spec fn parse_count(value: Seq<char>, flag: Seq<char>) -> Result<nat, Seq<char>> {
    match parse_unsigned(value, usize::MAX as nat) {
        Some(v) => Ok(v),
        None => Err(invalid_number(value, flag)),
    }
}

pub fn parse_usize(value: &str, flag: &str) -> (r: Result<usize, String>)
    ensures
        match r {
            Ok(v) => parse_count(value@, flag@) == Ok::<nat, Seq<char>>(v as nat),
            Err(e) => parse_count(value@, flag@) == Err::<nat, Seq<char>>(e@),
        },
{
    let cs = chars_of(value);
    match parse_unsigned_chars(cs.as_slice(), usize::MAX as u64) {
        Some(v) => Ok(v as usize),
        None => {
            let mut message = String::from_str("Invalid numeric value for ");
            message.append(flag);
            message.append(": ");
            message.append(value);
            Err(message)
        },
    }
}

pub open spec fn corpus_flag() -> Seq<char> {
    "--corpus"@
}

pub open spec fn queries_flag() -> Seq<char> {
    "--queries"@
}

/// The arguments read from the left: `--corpus N` and `--queries N` set the two counts (a
/// later one wins); a flag without a value, a bad count or any other argument is an error.
pub open spec fn read_args(args: Seq<Seq<char>>, corpus: nat, queries: nat) -> Result<
    (nat, nat),
    Seq<char>,
>
    decreases args.len(),
{
    if args.len() == 0 {
        Ok((corpus, queries))
    } else if args[0] == corpus_flag() || args[0] == queries_flag() {
        if args.len() < 2 {
            Err("Missing value for "@ + args[0])
        } else {
            match parse_count(args[1], args[0]) {
                Ok(v) => if args[0] == corpus_flag() {
                    read_args(args.subrange(2, args.len() as int), v, queries)
                } else {
                    read_args(args.subrange(2, args.len() as int), corpus, v)
                },
                Err(e) => Err(e),
            }
        }
    } else {
        Err("Unknown argument: "@ + args[0])
    }
}

/// The configuration of a run: 2000 items and 250 queries unless the arguments say
/// otherwise, and neither may be zero.
pub open spec fn config_of(args: Seq<Seq<char>>) -> Result<(nat, nat), Seq<char>> {
    match read_args(args, 2000, 250) {
        Ok((c, q)) => if c == 0 {
            Err("Corpus size must be greater than 0."@)
        } else if q == 0 {
            Err("Query count must be greater than 0."@)
        } else {
            Ok((c, q))
        },
        Err(e) => Err(e),
    }
}

/// Reads the arguments that follow the program name.
pub fn parse_args(args: &Vec<String>) -> (r: Result<BenchmarkConfig, String>)
    ensures
        match r {
            Ok(c) => config_of(args.deep_view()) == Ok::<(nat, nat), Seq<char>>(
                (c.corpus_size as nat, c.query_count as nat),
            ),
            Err(e) => config_of(args.deep_view()) == Err::<(nat, nat), Seq<char>>(e@),
        },
{
    let mut corpus: usize = 2000;
    let mut queries: usize = 250;
    let mut i: usize = 0;
    let ghost all = args.deep_view();
    assert(all.subrange(0, all.len() as int) =~= all);
    while i < args.len()
        invariant
            i <= args@.len(),
            all == args.deep_view(),
            read_args(all, 2000, 250) == read_args(
                all.subrange(i as int, all.len() as int),
                corpus as nat,
                queries as nat,
            ),
        decreases args@.len() - i,
    {
        let ghost rest = all.subrange(i as int, all.len() as int);
        let arg = args[i].as_str();
        assert(rest[0] == arg@);
        let is_corpus = str_eq(arg, "--corpus");
        let is_queries = str_eq(arg, "--queries");
        if is_corpus || is_queries {
            if i + 1 >= args.len() {
                let mut message = String::from_str("Missing value for ");
                message.append(arg);
                return Err(message);
            }
            assert(rest[1] == args[i + 1]@);
            let value = parse_usize(args[i + 1].as_str(), arg)?;
            assert(rest.subrange(2, rest.len() as int) =~= all.subrange(
                i + 2,
                all.len() as int,
            ));
            if is_corpus {
                corpus = value;
            } else {
                queries = value;
            }
            i += 2;
        } else {
            let mut message = String::from_str("Unknown argument: ");
            message.append(arg);
            return Err(message);
        }
    }
    assert(all.subrange(i as int, all.len() as int) =~= Seq::<Seq<char>>::empty());
    if corpus == 0 {
        return Err(String::from_str("Corpus size must be greater than 0."));
    }
    if queries == 0 {
        return Err(String::from_str("Query count must be greater than 0."));
    }
    Ok(BenchmarkConfig { corpus_size: corpus, query_count: queries })
}

/// Every seventh item, starting with the first, is history; the rest is fiction.
pub open spec fn category_of(index: nat) -> Seq<char> {
    if index % 7 == 0 {
        "history"@
    } else {
        "fiction"@
    }
}

pub open spec fn item_title_of(index: nat) -> Seq<char> {
    "book "@ + decimal(index) + " caudex "@ + category_of(index) + " metadata"@
}

pub open spec fn item_path_of(index: nat) -> Seq<char> {
    "/tmp/caudex-bench-"@ + decimal(index) + ".epub"@
}

/// Every fifth query, starting with the first, searches across the corpus; the others
/// look for one book.
pub open spec fn query_of(index: nat) -> Seq<char> {
    if index % 5 == 0 {
        "history metadata"@
    } else {
        "book "@ + decimal(index)
    }
}

pub fn item_title(index: usize) -> (t: String)
    ensures
        t@ == item_title_of(index as nat),
{
    let mut title = String::from_str("book ");
    push_decimal(&mut title, index as u64);
    title.append(" caudex ");
    title.append(if index % 7 == 0 { "history" } else { "fiction" });
    title.append(" metadata");
    title
}

pub fn item_path(index: usize) -> (p: String)
    ensures
        p@ == item_path_of(index as nat),
{
    let mut path = String::from_str("/tmp/caudex-bench-");
    push_decimal(&mut path, index as u64);
    path.append(".epub");
    path
}

pub fn query_text(index: usize) -> (q: String)
    ensures
        q@ == query_of(index as nat),
{
    if index % 5 == 0 {
        String::from_str("history metadata")
    } else {
        let mut query = String::from_str("book ");
        push_decimal(&mut query, index as u64);
        query
    }
}

/// One pass of filling the index: a pass with failures stops the benchmark; an empty pass
/// ends the filling; otherwise the processed units are added up and another pass follows.
pub fn after_fill_pass(total: u32, processed: u32, failed: u32) -> (r: Result<(u32, bool), String>)
    requires
        total + processed <= u32::MAX,
    ensures
        failed > 0 <==> r is Err,
        r matches Err(e) ==> e@ == "Index benchmark setup failed with "@ + decimal(failed as nat)
            + " failed unit(s)."@,
        r matches Ok((t, more)) ==> t == total + processed && more == (processed != 0),
{
    if failed > 0 {
        let mut message = String::from_str("Index benchmark setup failed with ");
        push_decimal(&mut message, failed as u64);
        message.append(" failed unit(s).");
        return Err(message);
    }
    Ok((total + processed, processed != 0))
}

} // verus!
