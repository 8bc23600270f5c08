use minigrep::config::{Config, UsageError};
use minigrep::matcher::{contains_chars, contains_text, line_matches};
use minigrep::report::{exit_code, format_report, report_line, scan, search, SearchError};

fn args(tokens: &[&str]) -> Vec<String> {
    tokens.iter().map(|t| t.to_string()).collect()
}

fn config(query: &str, ignore_case: bool) -> Config {
    Config { query: query.to_string(), file_path: "poem.txt".to_string(), ignore_case }
}

fn lines(texts: &[&str]) -> Vec<Option<String>> {
    texts.iter().map(|t| Some(t.to_string())).collect()
}

#[test]
fn build_two_tokens_keeps_them_verbatim() {
    let c = Config::build(&args(&["prog", "FoO", "Some/Path.TXT"])).unwrap();
    assert_eq!(c.query, "FoO");
    assert_eq!(c.file_path, "Some/Path.TXT");
    assert!(!c.ignore_case);
}

#[test]
fn build_short_flag_sets_ignore_case() {
    let c = Config::build(&args(&["prog", "Query", "file.txt", "-i"])).unwrap();
    assert_eq!(c.query, "Query");
    assert_eq!(c.file_path, "file.txt");
    assert!(c.ignore_case);
}

#[test]
fn build_long_flag_sets_ignore_case() {
    let c = Config::build(&args(&["prog", "q", "f", "--ignore-case"])).unwrap();
    assert!(c.ignore_case);
}

#[test]
fn build_without_arguments_misses_query() {
    assert_eq!(Config::build(&args(&["prog"])).unwrap_err(), UsageError::MissingQuery);
    assert_eq!(Config::build(&args(&[])).unwrap_err(), UsageError::MissingQuery);
}

#[test]
fn build_one_argument_misses_file_path() {
    let e = Config::build(&args(&["prog", "needle"])).unwrap_err();
    assert_eq!(e, UsageError::MissingFilePath);
    let outcome: Result<Vec<String>, SearchError> = Err(SearchError::Usage(e));
    assert_eq!(exit_code(&outcome), 1);
}

#[test]
fn build_empty_query_is_refused() {
    let e = Config::build(&args(&["grep", "", "f.txt"])).unwrap_err();
    assert_eq!(e, UsageError::EmptyQuery);
    let e = Config::build(&args(&["grep", "", "f.txt", "-i"])).unwrap_err();
    assert_eq!(e, UsageError::EmptyQuery);
    let outcome: Result<Vec<String>, SearchError> = Err(SearchError::Usage(e));
    assert_eq!(exit_code(&outcome), 1);
}

#[test]
fn build_empty_file_path_is_refused() {
    let e = Config::build(&args(&["grep", "needle", ""])).unwrap_err();
    assert_eq!(e, UsageError::EmptyFilePath);
    let e = Config::build(&args(&["grep", "", ""])).unwrap_err();
    assert_eq!(e, UsageError::EmptyQuery);
}

#[test]
fn build_unknown_flag_is_refused() {
    let e = Config::build(&args(&["prog", "needle", "file.txt", "-x"])).unwrap_err();
    assert_eq!(e, UsageError::UnrecognizedArgument);
    let outcome: Result<Vec<String>, SearchError> = Err(SearchError::Usage(e));
    assert_eq!(exit_code(&outcome), 1);
}

#[test]
fn build_two_flags_are_refused() {
    let e = Config::build(&args(&["prog", "needle", "file.txt", "-i", "-i"])).unwrap_err();
    assert_eq!(e, UsageError::TooManyArguments);
}

#[test]
fn usage_messages() {
    assert_eq!(UsageError::MissingQuery.message(), "Not enough arguments: query not provided.");
    assert_eq!(
        UsageError::MissingFilePath.message(),
        "Not enough arguments: file_path not provided."
    );
    assert_eq!(
        UsageError::UnrecognizedArgument.message(),
        "Unrecognized argument or flag. Usage: <query> <file_path> [-i/--ignore-case]"
    );
    assert_eq!(UsageError::EmptyQuery.message(), "Invalid argument: query must not be empty.");
    assert_eq!(
        UsageError::EmptyFilePath.message(),
        "Invalid argument: file_path must not be empty."
    );
    let e = SearchError::Usage(UsageError::TooManyArguments);
    assert_eq!(e.message(), "Too many arguments. Usage: <query> <file_path> [-i/--ignore-case]");
}

#[test]
fn matcher_case_sensitive_by_default() {
    assert!(!line_matches("a foo bar", "Foo", false));
    assert!(line_matches("a foo bar", "Foo", true));
    assert!(line_matches("a Foo bar", "Foo", false));
}

#[test]
fn matcher_lowercases_both_sides() {
    assert!(line_matches("SHOUTING TEXT", "shout", true));
    assert!(line_matches("quiet text", "TEXT", true));
    assert!(!line_matches("quiet text", "louder", true));
}

#[test]
fn contains_edge_cases() {
    assert!(contains_text("anything", ""));
    assert!(contains_text("", ""));
    assert!(!contains_text("", "a"));
    assert!(!contains_text("ab", "abc"));
    assert!(contains_text("abc", "abc"));
    assert!(contains_text("aaab", "aab"));
    assert!(contains_text("héllo wörld", "ö"));
    assert!(!contains_chars(&vec!['a', 'b'], &vec!['b', 'a']));
    assert!(contains_chars(&vec!['x', 'b', 'a'], &vec!['b', 'a']));
}

#[test]
fn format_report_numbers() {
    assert_eq!(format_report(1, "apple"), "Line 1: apple");
    assert_eq!(format_report(10, ""), "Line 10: ");
    assert_eq!(format_report(0, "x"), "Line 0: x");
    assert_eq!(format_report(4072, "deep"), "Line 4072: deep");
}

#[test]
fn report_line_only_for_matches() {
    let c = config("an", false);
    assert_eq!(report_line(&c, 2, "Banana"), Some("Line 2: Banana".to_string()));
    assert_eq!(report_line(&c, 3, "grape"), None);
}

#[test]
fn fruit_file_with_query_an() {
    let file = lines(&["apple", "Banana", "grape"]);
    assert_eq!(scan(&config("an", false), &file), vec!["Line 2: Banana".to_string()]);
    assert_eq!(scan(&config("an", true), &file), vec!["Line 2: Banana".to_string()]);
}

#[test]
fn fruit_file_with_query_upper_an() {
    let file = lines(&["apple", "Banana", "grape"]);
    assert!(scan(&config("AN", false), &file).is_empty());
    assert_eq!(scan(&config("AN", true), &file), vec!["Line 2: Banana".to_string()]);
}

#[test]
fn scan_keeps_numbers_across_unreadable_lines() {
    let file = vec![Some("one fish".to_string()), None, Some("two fish".to_string()), None];
    assert_eq!(
        scan(&config("fish", false), &file),
        vec!["Line 1: one fish".to_string(), "Line 3: two fish".to_string()]
    );
}

#[test]
fn scan_of_empty_file_reports_nothing() {
    assert!(scan(&config("x", false), &Vec::new()).is_empty());
}

#[test]
fn scan_twice_gives_same_output() {
    let file = lines(&["alpha", "beta", "Alphabet", "gamma"]);
    let c = config("alpha", true);
    let first = scan(&c, &file);
    let second = scan(&c, &file);
    assert_eq!(first, second);
    assert_eq!(first, vec!["Line 1: alpha".to_string(), "Line 3: Alphabet".to_string()]);
}

#[test]
fn search_failed_open_is_file_access_error() {
    let c = config("x", false);
    let outcome = search(&c, Err("No such file or directory (os error 2)".to_string()));
    assert_eq!(exit_code(&outcome), 1);
    match outcome {
        Err(SearchError::FileAccess { path, reason }) => {
            assert_eq!(path, "poem.txt");
            assert_eq!(reason, "No such file or directory (os error 2)");
        }
        _ => panic!("expected a file access error"),
    }
}

#[test]
fn file_access_message() {
    let e = SearchError::FileAccess { path: "a.txt".to_string(), reason: "denied".to_string() };
    assert_eq!(e.message(), "a.txt: denied");
}

#[test]
fn search_success_exits_with_zero() {
    let c = config("zzz", false);
    let outcome = search(&c, Ok(lines(&["abc"])));
    assert_eq!(exit_code(&outcome), 0);
    assert!(outcome.unwrap().is_empty());
}
