use hello_web::minigrep::Config;
use hello_web::minigrep::search;
use hello_web::minigrep::search_case_insensitive;

#[test]
fn one_result() {
    let query: &str = "duct";
    let contents: &str = "\
    Rust:
safe, fast, productive.
Pick three.";
    assert_eq!(vec!["safe, fast, productive."], search(query, contents));
}

#[test]
fn case_insensitive_lowers_the_line() {
    let query: &str = "rust";
    let contents: &str = "\
Rust:
safe, fast, productive.
Trust me.";
    assert_eq!(
        vec!["Rust:", "Trust me."],
        search_case_insensitive(query, contents)
    );
    // The query itself is not lowered, so an uppercase query finds nothing.
    assert_eq!(
        Vec::<&str>::new(),
        search_case_insensitive("RUST", contents)
    );
}

#[test]
fn no_match_means_empty_result() {
    assert_eq!(Vec::<&str>::new(), search("zebra", "one\ntwo\nthree"));
    assert_eq!(Vec::<&str>::new(), search("anything", ""));
}

#[test]
fn empty_query_matches_every_line() {
    assert_eq!(vec!["one", "two"], search("", "one\ntwo"));
}

#[test]
fn carriage_returns_are_stripped() {
    assert_eq!(vec!["one", "two"], search("", "one\r\ntwo\r\n"));
    // A final line without a terminator still counts, and a terminator at
    // the end adds no empty line.
    assert_eq!(vec!["a", "b"], search("", "a\nb"));
    assert_eq!(vec!["a", "b"], search("", "a\nb\n"));
}

#[test]
fn config_needs_three_args() {
    let args: Vec<String> = vec!["minigrep".to_string(), "query".to_string()];
    assert_eq!(Config::build(&args, false).unwrap_err(), "not enough arguments");

    let args: Vec<String> = vec![
        "minigrep".to_string(),
        "needle".to_string(),
        "poem.txt".to_string(),
    ];
    let config = Config::build(&args, true).unwrap();
    assert_eq!(config.query, "needle");
    assert_eq!(config.file_path, "poem.txt");
    assert!(config.ignore_case);
}
