use generate_directives::error::ErrorKind;
use generate_directives::filter::{
    comment_filter_from_generate_flags, comment_verdict, file_filter_from_file_flags, path_verdict,
};
use generate_directives::parse_comments::parse_comments;

fn strings(items: &[&str]) -> Vec<String> {
    items.iter().map(|s| s.to_string()).collect()
}

fn comment(line: &str) -> generate_directives::parse_comments::ParsedComment {
    parse_comments(line).comments.remove(0)
}

#[test]
fn ignore_pattern_rejects_what_it_matches() {
    let filter = file_filter_from_file_flags(&strings(&[]), &strings(&["*.test.*"])).unwrap();
    assert!(!filter.accepts("foo.test.ts"));
    assert!(filter.accepts("foo.ts"));
    assert!(filter.accepts("test.ts"));
    assert!(!filter.accepts("/src/foo.test.js"));
}

#[test]
fn no_patterns_accept_every_path() {
    let filter = file_filter_from_file_flags(&strings(&[]), &strings(&[])).unwrap();
    assert!(filter.accepts("/a/b.ts"));
    assert!(filter.accepts(""));
}

#[test]
fn some_pattern_to_match_has_to_match() {
    let filter = file_filter_from_file_flags(&strings(&["/src/*", "*.gen.ts"]), &strings(&[])).unwrap();
    assert!(filter.accepts("/src/a.ts"));
    assert!(filter.accepts("/lib/a.gen.ts"));
    assert!(!filter.accepts("/lib/a.ts"));
}

#[test]
fn ignoring_wins_over_matching() {
    let filter = file_filter_from_file_flags(&strings(&["/src/*"]), &strings(&["*.test.*"])).unwrap();
    assert!(filter.accepts("/src/a.ts"));
    assert!(!filter.accepts("/src/a.test.ts"));
    assert!(!filter.accepts("/lib/a.ts"));
}

#[test]
fn glob_matches_the_whole_path() {
    let filter = file_filter_from_file_flags(&strings(&["a?c"]), &strings(&[])).unwrap();
    assert!(filter.accepts("abc"));
    assert!(!filter.accepts("abcd"));
    assert!(!filter.accepts("a?cd"));
}

#[test]
fn invalid_glob_is_reported_with_its_text() {
    let error = file_filter_from_file_flags(&strings(&["ok", "a**b"]), &strings(&["abc[def"])).err().unwrap();
    assert_eq!(error.kind, ErrorKind::InvalidPattern);
    assert_eq!(error.subject, "a**b");
    assert_eq!(error.specifier, None);
    assert_eq!(error.position, None);
    let second = file_filter_from_file_flags(&strings(&["ok"]), &strings(&["fine", "abc[def"])).err().unwrap();
    assert_eq!(second.kind, ErrorKind::InvalidPattern);
    assert_eq!(second.subject, "abc[def");
}

#[test]
fn path_verdict_combines_the_answers() {
    assert!(path_verdict(false, false, false));
    assert!(path_verdict(false, true, true));
    assert!(!path_verdict(false, true, false));
    assert!(!path_verdict(true, false, false));
    assert!(!path_verdict(true, true, true));
}

#[test]
fn without_run_and_skip_every_directive_runs() {
    let filter = comment_filter_from_generate_flags(&None, &None).unwrap();
    assert!(filter.accepts(&comment("//deno:generate anything")));
}

#[test]
fn run_has_to_match_the_line() {
    let filter = comment_filter_from_generate_flags(&Some("foo".to_string()), &None).unwrap();
    assert!(filter.accepts(&comment("//deno:generate foo")));
    assert!(filter.accepts(&comment("//deno:generate echo xfoox")));
    assert!(!filter.accepts(&comment("//deno:generate bar")));
}

#[test]
fn skip_rejects_what_it_matches() {
    let filter = comment_filter_from_generate_flags(&None, &Some("bar".to_string())).unwrap();
    assert!(filter.accepts(&comment("//deno:generate foo")));
    assert!(!filter.accepts(&comment("//deno:generate foo bar")));
}

#[test]
fn skip_wins_over_run() {
    let filter =
        comment_filter_from_generate_flags(&Some("^foo".to_string()), &Some("bar".to_string())).unwrap();
    let mut both = comment("//deno:generate x");
    both.original = "foo bar".to_string();
    assert!(!filter.accepts(&both));
    let mut only_run = comment("//deno:generate x");
    only_run.original = "foo baz".to_string();
    assert!(filter.accepts(&only_run));
    let mut neither = comment("//deno:generate x");
    neither.original = "a foo".to_string();
    assert!(!filter.accepts(&neither));
}

#[test]
fn regex_is_matched_against_the_whole_line() {
    let filter = comment_filter_from_generate_flags(&Some("^  //deno".to_string()), &None).unwrap();
    assert!(filter.accepts(&comment("  //deno:generate x")));
    assert!(!filter.accepts(&comment("//deno:generate x")));
}

#[test]
fn invalid_regex_is_reported_with_its_text() {
    let error = comment_filter_from_generate_flags(&Some("(".to_string()), &Some("[".to_string())).err().unwrap();
    assert_eq!(error.kind, ErrorKind::InvalidPattern);
    assert_eq!(error.subject, "(");
    let second = comment_filter_from_generate_flags(&Some("a".to_string()), &Some("[".to_string())).err().unwrap();
    assert_eq!(second.kind, ErrorKind::InvalidPattern);
    assert_eq!(second.subject, "[");
}

#[test]
fn comment_verdict_combines_the_answers() {
    assert!(comment_verdict(None, None));
    assert!(comment_verdict(Some(true), None));
    assert!(!comment_verdict(Some(false), None));
    assert!(comment_verdict(None, Some(false)));
    assert!(!comment_verdict(None, Some(true)));
    assert!(comment_verdict(Some(true), Some(false)));
    assert!(!comment_verdict(Some(true), Some(true)));
    assert!(!comment_verdict(Some(false), Some(false)));
}
