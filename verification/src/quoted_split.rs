//! A shell-like splitter for directive arguments.
//!
//! Fields are separated by runs of whitespace. A field that begins with `'` or
//! `"` runs to the next occurrence of the same quote character and is taken
//! verbatim, without the quotes; nothing is unescaped inside it. A quote
//! character further inside an unquoted field does not count.

use vstd::prelude::*;
use crate::error::ErrorKind;
use crate::text::{lemma_strings_view_push, string_from_chars, strings_view, to_chars};

verus! {

/// The characters that separate tokens: space, tab, line feed and carriage return.
pub open spec fn is_space(c: char) -> bool {
    c == ' ' || c == '\t' || c == '\n' || c == '\r'
}

/// The two characters that open and close a quoted token.
pub open spec fn is_quote(c: char) -> bool {
    c == '"' || c == '\''
}

/// The first index at or after `i` that holds no whitespace, or the end of `s`.
pub open spec fn skip_spaces(s: Seq<char>, i: int) -> int
    decreases s.len() - i,
{
    if 0 <= i < s.len() && is_space(s[i]) {
        skip_spaces(s, i + 1)
    } else {
        i
    }
}

/// The first index at or after `i` that holds whitespace, or the end of `s`.
pub open spec fn word_end(s: Seq<char>, i: int) -> int
    decreases s.len() - i,
{
    if 0 <= i < s.len() && !is_space(s[i]) {
        word_end(s, i + 1)
    } else {
        i
    }
}

/// The first index at or after `i` that holds `c`, or the end of `s`.
pub open spec fn find_char(s: Seq<char>, c: char, i: int) -> int
    decreases s.len() - i,
{
    if 0 <= i < s.len() && s[i] != c {
        find_char(s, c, i + 1)
    } else {
        i
    }
}

/// `prefix` put in front of the tokens of `rest`, where there are any.
pub open spec fn with_prefix(prefix: Seq<Seq<char>>, rest: Option<Seq<Seq<char>>>) -> Option<
    Seq<Seq<char>>,
> {
    match rest {
        Some(tokens) => Some(prefix + tokens),
        None => None,
    }
}

/// The tokens of `s` from index `i` on, or `None` where a quote opened at or
/// after `i` is never closed.
pub open spec fn tokens_from(s: Seq<char>, i: int) -> Option<Seq<Seq<char>>>
    decreases s.len() - i,
    via tokens_from_decreases
{
    let start = skip_spaces(s, i);
    if start < 0 || start >= s.len() {
        Some(Seq::empty())
    } else if is_quote(s[start]) {
        let close = find_char(s, s[start], start + 1);
        if close >= s.len() {
            None
        } else {
            with_prefix(seq![s.subrange(start + 1, close)], tokens_from(s, close + 1))
        }
    } else {
        let end = word_end(s, start);
        with_prefix(seq![s.subrange(start, end)], tokens_from(s, end))
    }
}

#[via_fn]
proof fn tokens_from_decreases(s: Seq<char>, i: int) {
    let start = skip_spaces(s, i);
    lemma_skip_spaces_bounds(s, i);
    if 0 <= start < s.len() {
        lemma_find_char_bounds(s, s[start], start + 1);
        lemma_word_end_bounds(s, start);
    }
}

/// The tokens of `s`, or `None` where `s` holds an unterminated quote.
pub open spec fn tokenize(s: Seq<char>) -> Option<Seq<Seq<char>>> {
    tokens_from(s, 0)
}

/// Skipping whitespace from `i` ends at or behind `i`, within `s`, on a
/// character that is no whitespace, and passes over whitespace only.
pub proof fn lemma_skip_spaces_bounds(s: Seq<char>, i: int)
    ensures
        i <= skip_spaces(s, i),
        i <= s.len() ==> skip_spaces(s, i) <= s.len(),
        forall|j: int| i <= j < skip_spaces(s, i) ==> is_space(#[trigger] s[j]),
        0 <= skip_spaces(s, i) < s.len() ==> !is_space(s[skip_spaces(s, i)]),
    decreases s.len() - i,
{
    if 0 <= i < s.len() && is_space(s[i]) {
        lemma_skip_spaces_bounds(s, i + 1);
    }
}

/// A word that begins at `i` ends behind `i`, within `s`, on whitespace, and
/// holds no whitespace.
pub proof fn lemma_word_end_bounds(s: Seq<char>, i: int)
    ensures
        i <= word_end(s, i),
        i <= s.len() ==> word_end(s, i) <= s.len(),
        0 <= i < s.len() && !is_space(s[i]) ==> i < word_end(s, i),
        forall|j: int| i <= j < word_end(s, i) ==> !is_space(#[trigger] s[j]),
        0 <= word_end(s, i) < s.len() ==> is_space(s[word_end(s, i)]),
    decreases s.len() - i,
{
    if 0 <= i < s.len() && !is_space(s[i]) {
        lemma_word_end_bounds(s, i + 1);
    }
}

/// The search for `c` from `i` ends at or behind `i`, within `s`, on `c`, and
/// passes over other characters only.
pub proof fn lemma_find_char_bounds(s: Seq<char>, c: char, i: int)
    ensures
        i <= find_char(s, c, i),
        i <= s.len() ==> find_char(s, c, i) <= s.len(),
        forall|j: int| i <= j < find_char(s, c, i) ==> #[trigger] s[j] != c,
        0 <= find_char(s, c, i) < s.len() ==> s[find_char(s, c, i)] == c,
    decreases s.len() - i,
{
    if 0 <= i < s.len() && s[i] != c {
        lemma_find_char_bounds(s, c, i + 1);
    }
}

/// The maximal runs of characters other than whitespace in `s`, from index `i` on.
pub open spec fn words_from(s: Seq<char>, i: int) -> Seq<Seq<char>>
    decreases s.len() - i,
    via words_from_decreases
{
    let start = skip_spaces(s, i);
    if start < 0 || start >= s.len() {
        Seq::empty()
    } else {
        let end = word_end(s, start);
        seq![s.subrange(start, end)] + words_from(s, end)
    }
}

#[via_fn]
proof fn words_from_decreases(s: Seq<char>, i: int) {
    let start = skip_spaces(s, i);
    lemma_skip_spaces_bounds(s, i);
    if 0 <= start < s.len() {
        lemma_word_end_bounds(s, start);
    }
}

/// Every word is a run of at least one character, none of them whitespace.
pub proof fn lemma_words_hold_no_space(s: Seq<char>, i: int)
    requires
        0 <= i,
    ensures
        forall|k: int|
            0 <= k < words_from(s, i).len() ==> (#[trigger] words_from(s, i)[k]).len() > 0,
        forall|k: int, j: int|
            0 <= k < words_from(s, i).len() && 0 <= j < words_from(s, i)[k].len() ==> !is_space(
                #[trigger] words_from(s, i)[k][j],
            ),
    decreases s.len() - i,
{
    let start = skip_spaces(s, i);
    lemma_skip_spaces_bounds(s, i);
    if start < s.len() {
        let end = word_end(s, start);
        lemma_word_end_bounds(s, start);
        lemma_words_hold_no_space(s, end);
        let word = s.subrange(start, end);
        let rest = words_from(s, end);
        assert forall|k: int| 0 <= k < words_from(s, i).len() implies (#[trigger] words_from(
            s,
            i,
        )[k]).len() > 0 && forall|j: int|
            0 <= j < words_from(s, i)[k].len() ==> !is_space(#[trigger] words_from(s, i)[k][j]) by {
            if k == 0 {
                assert(words_from(s, i)[k] == word);
                assert forall|j: int| 0 <= j < word.len() implies !is_space(#[trigger] word[j]) by {
                    assert(word[j] == s[start + j]);
                }
            } else {
                assert(words_from(s, i)[k] == rest[k - 1]);
            }
        }
    }
}

/// A string without quote characters is split purely at its runs of
/// whitespace: its tokens are its words, from any index on.
pub proof fn lemma_unquoted_tokens_from(s: Seq<char>, i: int)
    requires
        0 <= i,
        forall|j: int| 0 <= j < s.len() ==> !is_quote(#[trigger] s[j]),
    ensures
        tokens_from(s, i) == Some(words_from(s, i)),
    decreases s.len() - i,
{
    let start = skip_spaces(s, i);
    lemma_skip_spaces_bounds(s, i);
    if start < s.len() {
        lemma_word_end_bounds(s, start);
        lemma_unquoted_tokens_from(s, word_end(s, start));
    }
}

/// A string without quote characters is split purely at its runs of
/// whitespace; whitespace in front of the first word and behind the last is
/// dropped, and no token is empty or holds whitespace.
pub proof fn lemma_unquoted_splits_on_whitespace(s: Seq<char>)
    requires
        forall|j: int| 0 <= j < s.len() ==> !is_quote(#[trigger] s[j]),
    ensures
        tokenize(s) == Some(words_from(s, 0)),
        forall|k: int|
            0 <= k < words_from(s, 0).len() ==> (#[trigger] words_from(s, 0)[k]).len() > 0,
        forall|k: int, j: int|
            0 <= k < words_from(s, 0).len() && 0 <= j < words_from(s, 0)[k].len() ==> !is_space(
                #[trigger] words_from(s, 0)[k][j],
            ),
{
    lemma_unquoted_tokens_from(s, 0);
    lemma_words_hold_no_space(s, 0);
}

/// Where `c` stands at `k` and nowhere in `i..k`, the search from `i` ends at `k`.
pub proof fn lemma_find_char_at(s: Seq<char>, c: char, i: int, k: int)
    requires
        0 <= i <= k <= s.len(),
        forall|j: int| i <= j < k ==> #[trigger] s[j] != c,
        k < s.len() ==> s[k] == c,
    ensures
        find_char(s, c, i) == k,
    decreases k - i,
{
    if i < k {
        lemma_find_char_at(s, c, i + 1, k);
    }
}

/// A quoted segment is one token, taken verbatim: whitespace and the other
/// quote character inside it are ordinary content.
pub proof fn lemma_quoted_segment_is_one_token(quote: char, body: Seq<char>)
    requires
        is_quote(quote),
        forall|j: int| 0 <= j < body.len() ==> #[trigger] body[j] != quote,
    ensures
        tokenize(seq![quote] + body + seq![quote]) == Some(seq![body]),
{
    let s = seq![quote] + body + seq![quote];
    let close: int = body.len() as int + 1;
    assert(s[0] == quote);
    assert(s[close] == quote);
    assert forall|j: int| 1 <= j < close implies #[trigger] s[j] != quote by {
        assert(s[j] == body[j - 1]);
    }
    lemma_find_char_at(s, quote, 1, close);
    assert(skip_spaces(s, 0) == 0);
    assert(skip_spaces(s, close + 1) == close + 1);
    assert(tokens_from(s, close + 1) == Some(Seq::<Seq<char>>::empty()));
    assert(s.subrange(1, close) =~= body);
    assert(seq![body] + Seq::<Seq<char>>::empty() =~= seq![body]);
}

/// A quote that is opened and never closed makes the whole string fail.
pub proof fn lemma_open_quote_fails(quote: char, body: Seq<char>)
    requires
        is_quote(quote),
        forall|j: int| 0 <= j < body.len() ==> #[trigger] body[j] != quote,
    ensures
        tokenize(seq![quote] + body) is None,
{
    let s = seq![quote] + body;
    assert(s[0] == quote);
    assert forall|j: int| 1 <= j < s.len() implies #[trigger] s[j] != quote by {
        assert(s[j] == body[j - 1]);
    }
    lemma_find_char_at(s, quote, 1, s.len() as int);
    assert(skip_spaces(s, 0) == 0);
}

/// Returns true if the given character is a space character.
pub fn is_space_byte(c: char) -> (r: bool)
    ensures
        r == is_space(c),
{
    c == ' ' || c == '\t' || c == '\n' || c == '\r'
}

/// Splits the characters `s` into tokens.
///
/// Fails with `UnterminatedQuote`, and only with it, exactly where a quote is
/// opened and never closed.
pub fn split_chars(s: &Vec<char>) -> (r: Result<Vec<String>, ErrorKind>)
    ensures
        match r {
            Ok(tokens) => tokenize(s@) == Some(strings_view(tokens@)),
            Err(e) => tokenize(s@) is None && e == ErrorKind::UnterminatedQuote,
        },
{
    let n = s.len();
    let mut tokens: Vec<String> = Vec::new();
    let mut i: usize = 0;
    assert(strings_view(tokens@) =~= Seq::empty());
    assert(with_prefix(Seq::empty(), tokens_from(s@, 0)) == tokens_from(s@, 0)) by {
        if let Some(t) = tokens_from(s@, 0) {
            assert(Seq::<Seq<char>>::empty() + t =~= t);
        }
    }
    loop
        invariant
            n == s.len(),
            i <= n,
            tokenize(s@) == with_prefix(strings_view(tokens@), tokens_from(s@, i as int)),
        decreases n - i,
    {
        let ghost from = i as int;
        while i < n && is_space_byte(s[i])
            invariant
                n == s.len(),
                from <= i <= n,
                skip_spaces(s@, from) == skip_spaces(s@, i as int),
            decreases n - i,
        {
            i += 1;
        }
        if i >= n {
            assert(tokens_from(s@, from) == Some(Seq::<Seq<char>>::empty()));
            assert(strings_view(tokens@) + Seq::<Seq<char>>::empty() =~= strings_view(tokens@));
            return Ok(tokens);
        }
        let start = i;
        let first = s[start];
        let ghost before = strings_view(tokens@);
        if first == '"' || first == '\'' {
            i += 1;
            while i < n && s[i] != first
                invariant
                    n == s.len(),
                    start < i <= n,
                    find_char(s@, first, start + 1) == find_char(s@, first, i as int),
                decreases n - i,
            {
                i += 1;
            }
            if i >= n {
                return Err(ErrorKind::UnterminatedQuote);
            }
            let token = string_from_chars(s, start + 1, i);
            proof {
                lemma_strings_view_push(tokens@, token);
                lemma_with_prefix_push(before, token@, tokens_from(s@, i + 1));
            }
            tokens.push(token);
            i += 1;
        } else {
            while i < n && !is_space_byte(s[i])
                invariant
                    n == s.len(),
                    start <= i <= n,
                    word_end(s@, start as int) == word_end(s@, i as int),
                decreases n - i,
            {
                i += 1;
            }
            proof {
                lemma_word_end_bounds(s@, start as int);
            }
            let token = string_from_chars(s, start, i);
            proof {
                lemma_strings_view_push(tokens@, token);
                lemma_with_prefix_push(before, token@, tokens_from(s@, i as int));
            }
            tokens.push(token);
        }
    }
}

proof fn lemma_with_prefix_push(
    prefix: Seq<Seq<char>>,
    token: Seq<char>,
    rest: Option<Seq<Seq<char>>>,
)
    ensures
        with_prefix(prefix, with_prefix(seq![token], rest)) == with_prefix(prefix.push(token), rest),
{
    if let Some(t) = rest {
        assert(prefix + (seq![token] + t) =~= prefix.push(token) + t);
    }
}

/// A simple shell-like string splitter that splits on spaces
/// unless the space is quoted.
///
/// Fails with `UnterminatedQuote`, and only with it, exactly where a quote is
/// opened and never closed.
pub fn quoted_split(s: &str) -> (r: Result<Vec<String>, ErrorKind>)
    ensures
        match r {
            Ok(tokens) => tokenize(s@) == Some(strings_view(tokens@)),
            Err(e) => tokenize(s@) is None && e == ErrorKind::UnterminatedQuote,
        },
{
    let chars = to_chars(s);
    split_chars(&chars)
}

} // verus!
