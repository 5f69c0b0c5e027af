use generate_directives::error::ErrorKind;
use generate_directives::quoted_split::{is_space_byte, quoted_split};

#[test]
fn test_empty_string() {
    let got = quoted_split("").unwrap();
    let want: Vec<&str> = vec![];
    assert_eq!(got, want);
}

#[test]
fn test_string_with_space() {
    let got = quoted_split(" ").unwrap();
    let want: Vec<&str> = vec![];
    assert_eq!(got, want);
}

#[test]
fn test_string_with_one_word() {
    let got = quoted_split("a").unwrap();
    let want: Vec<&str> = vec!["a"];
    assert_eq!(got, want);
}

#[test]
fn test_string_with_leading_space() {
    let got = quoted_split(" a").unwrap();
    let want: Vec<&str> = vec!["a"];
    assert_eq!(got, want);
}

#[test]
fn test_string_with_trailing_space() {
    let got = quoted_split("a ").unwrap();
    let want: Vec<&str> = vec!["a"];
    assert_eq!(got, want);
}

#[test]
fn test_string_with_two_words() {
    let got = quoted_split("a b").unwrap();
    let want: Vec<&str> = vec!["a", "b"];
    assert_eq!(got, want);
}

#[test]
fn test_string_with_two_words_and_multi_space() {
    let got = quoted_split("a  b").unwrap();
    let want: Vec<&str> = vec!["a", "b"];
    assert_eq!(got, want);
}

#[test]
fn test_string_with_two_words_and_tab() {
    let got = quoted_split("a\tb").unwrap();
    let want: Vec<&str> = vec!["a", "b"];
    assert_eq!(got, want);
}

#[test]
fn test_string_with_two_words_and_newline() {
    let got = quoted_split("a\nb").unwrap();
    let want: Vec<&str> = vec!["a", "b"];
    assert_eq!(got, want);
}

#[test]
fn test_string_with_single_quoted_word() {
    let got = quoted_split("'a b'").unwrap();
    let want: Vec<&str> = vec!["a b"];
    assert_eq!(got, want);
}

#[test]
fn test_string_with_double_quoted_word() {
    let got = quoted_split(r#""a b""#).unwrap();
    let want: Vec<&str> = vec!["a b"];
    assert_eq!(got, want);
}

#[test]
fn test_string_with_both_quoted_words() {
    let got = quoted_split(r#"'a '"b ""#).unwrap();
    let want: Vec<&str> = vec!["a ", "b "];
    assert_eq!(got, want);
}

#[test]
fn test_string_with_quotes_contained_within_each_other() {
    let got = quoted_split(r#"'a "'"'b""#).unwrap();
    let want: Vec<&str> = vec![r#"a ""#, r#"'b"#];
    assert_eq!(got, want);
}

#[test]
fn test_escaped_single_quote() {
    let got = quoted_split(r#"\'"#).unwrap();
    let want: Vec<&str> = vec![r#"\'"#];
    assert_eq!(got, want);
}

#[test]
fn test_unterminated_single_quote() {
    assert!(quoted_split("'a").is_err());
}

#[test]
fn unterminated_quote_is_the_error_kind() {
    assert_eq!(quoted_split("'a"), Err(ErrorKind::UnterminatedQuote));
    assert_eq!(quoted_split("a \"b c"), Err(ErrorKind::UnterminatedQuote));
}

#[test]
fn space_characters_are_space_tab_newline_and_return() {
    assert!(is_space_byte(' '));
    assert!(is_space_byte('\t'));
    assert!(is_space_byte('\n'));
    assert!(is_space_byte('\r'));
    assert!(!is_space_byte('a'));
    assert!(!is_space_byte('\''));
    assert!(!is_space_byte('\u{a0}'));
}

#[test]
fn only_whitespace_gives_no_token() {
    let got = quoted_split(" \t\r\n ").unwrap();
    assert!(got.is_empty());
}

#[test]
fn quote_inside_a_word_is_ordinary() {
    let got = quoted_split("a'b c'd").unwrap();
    let want: Vec<&str> = vec!["a'b", "c'd"];
    assert_eq!(got, want);
}

#[test]
fn empty_quotes_give_an_empty_token() {
    let got = quoted_split("a '' b").unwrap();
    let want: Vec<&str> = vec!["a", "", "b"];
    assert_eq!(got, want);
}

#[test]
fn word_directly_after_a_quoted_token_is_its_own_token() {
    let got = quoted_split("'a b'c d").unwrap();
    let want: Vec<&str> = vec!["a b", "c", "d"];
    assert_eq!(got, want);
}

#[test]
fn tokens_survive_being_quoted_again() {
    let first = quoted_split(r#"'a "'"'b" c"#).unwrap();
    let want: Vec<&str> = vec![r#"a ""#, r#"'b"#, "c"];
    assert_eq!(first, want);
    for token in first.iter() {
        let quote = if token.contains('\'') { '"' } else { '\'' };
        let again = quoted_split(&format!("{}{}{}", quote, token, quote)).unwrap();
        assert_eq!(again, vec![token.clone()]);
    }
}

#[test]
fn characters_beyond_ascii_stay_whole() {
    let got = quoted_split("é 'ü ö' 日本").unwrap();
    let want: Vec<&str> = vec!["é", "ü ö", "日本"];
    assert_eq!(got, want);
}
