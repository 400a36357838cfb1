use caudex::search_benchmark::{after_fill_pass, item_path, item_title, parse_args, parse_usize, query_text};

fn args(items: &[&str]) -> Vec<String> {
    items.iter().map(|s| s.to_string()).collect()
}

#[test]
fn benchmark_defaults() {
    let config = parse_args(&args(&[])).expect("defaults should parse");
    assert_eq!((config.corpus_size, config.query_count), (2000, 250));
}

#[test]
fn benchmark_flags_set_counts() {
    let config = parse_args(&args(&["--queries", "5", "--corpus", "+30", "--corpus", "40"])).unwrap();
    assert_eq!((config.corpus_size, config.query_count), (40, 5));
}

#[test]
fn benchmark_argument_errors() {
    assert_eq!(
        parse_args(&args(&["--corpus"])).unwrap_err(),
        "Missing value for --corpus"
    );
    assert_eq!(
        parse_args(&args(&["--queries", "many"])).unwrap_err(),
        "Invalid numeric value for --queries: many"
    );
    assert_eq!(parse_args(&args(&["-v"])).unwrap_err(), "Unknown argument: -v");
    assert_eq!(
        parse_args(&args(&["--corpus", "0"])).unwrap_err(),
        "Corpus size must be greater than 0."
    );
    assert_eq!(
        parse_args(&args(&["--queries", "0"])).unwrap_err(),
        "Query count must be greater than 0."
    );
}

#[test]
fn counts_parse_like_str_parse() {
    assert_eq!(parse_usize("17", "--corpus"), Ok(17));
    assert_eq!(parse_usize("+3", "--corpus"), Ok(3));
    assert_eq!(parse_usize("", "--corpus"), Err("Invalid numeric value for --corpus: ".to_string()));
    assert_eq!(parse_usize("-1", "--corpus"), Err("Invalid numeric value for --corpus: -1".to_string()));
    assert_eq!(parse_usize(" 1", "--x"), Err("Invalid numeric value for --x:  1".to_string()));
    assert_eq!(
        parse_usize("99999999999999999999999", "--corpus"),
        Err("Invalid numeric value for --corpus: 99999999999999999999999".to_string())
    );
}

#[test]
fn synthetic_corpus_and_queries() {
    assert_eq!(item_title(0), "book 0 caudex history metadata");
    assert_eq!(item_title(8), "book 8 caudex fiction metadata");
    assert_eq!(item_title(14), "book 14 caudex history metadata");
    assert_eq!(item_path(12), "/tmp/caudex-bench-12.epub");
    assert_eq!(query_text(0), "history metadata");
    assert_eq!(query_text(7), "book 7");
    assert_eq!(query_text(10), "history metadata");
}

#[test]
fn filling_stops_on_failures_or_an_empty_pass() {
    assert_eq!(after_fill_pass(0, 200, 0), Ok((200, true)));
    assert_eq!(after_fill_pass(200, 0, 0), Ok((200, false)));
    assert_eq!(
        after_fill_pass(0, 10, 2),
        Err("Index benchmark setup failed with 2 failed unit(s).".to_string())
    );
}
