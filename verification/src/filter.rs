//! Which modules take part, and which of their directives run.
//!
//! Modules are chosen by their file path, with glob patterns; directives by
//! the text of their line, with regular expressions.

use vstd::prelude::*;
use crate::error::{invalid_pattern, GenerateError};
use crate::parse_comments::ParsedComment;
use crate::text::strings_view;

verus! {

/// `glob::Pattern`, a compiled glob pattern. Nothing is known of what is in it
/// but the text that it was made from.
#[verifier::external_type_specification]
#[verifier::external_body]
pub struct ExGlobPattern(glob::Pattern);

/// `glob::PatternError`, why a text is no glob pattern.
#[verifier::external_type_specification]
#[verifier::external_body]
pub struct ExGlobPatternError(glob::PatternError);

/// `regex::Regex`, a compiled regular expression. Nothing is known of what is
/// in it but the text that it was made from.
#[verifier::external_type_specification]
#[verifier::external_body]
pub struct ExRegex(regex::Regex);

/// `regex::Error`, why a text is no regular expression.
#[verifier::external_type_specification]
#[verifier::external_body]
pub struct ExRegexError(regex::Error);

/// The text that a compiled glob pattern was made from, as
/// `glob::Pattern::as_str` gives it.
pub uninterp spec fn glob_text(pattern: glob::Pattern) -> Seq<char>;

/// Whether `glob::Pattern::new` accepts the text.
pub uninterp spec fn glob_compiles(text: Seq<char>) -> bool;

/// Whether the pattern compiled from `text` matches all of `path`, as
/// `glob::Pattern::matches` decides it.
pub uninterp spec fn glob_matches(text: Seq<char>, path: Seq<char>) -> bool;

/// The text that a compiled regular expression was made from, as
/// `regex::Regex::as_str` gives it.
pub uninterp spec fn regex_text(regex: regex::Regex) -> Seq<char>;

/// Whether `regex::Regex::new` accepts the text.
pub uninterp spec fn regex_compiles(text: Seq<char>) -> bool;

/// Whether the regular expression compiled from `text` matches somewhere in
/// `haystack`, as `regex::Regex::is_match` decides it.
pub uninterp spec fn regex_matches(text: Seq<char>, haystack: Seq<char>) -> bool;

/// Whether `s` holds no backslash. The glob crate asks the target which
/// characters separate path components, and the backslash is one on some
/// targets only: what it does with a text that holds one is not the same
/// everywhere.
pub open spec fn portable(s: Seq<char>) -> bool {
    forall|i: int| 0 <= i < s.len() ==> s[i] != '\\'
}

/// Whether every text of `texts` is portable.
pub open spec fn all_portable(texts: Seq<Seq<char>>) -> bool {
    forall|i: int| 0 <= i < texts.len() ==> portable(#[trigger] texts[i])
}

/// Calls `glob::Pattern::new`. A pattern that comes back was made from
/// `text`. Whether one comes back depends on `text` alone, as long as `text`
/// holds no backslash.
#[verifier::external_body]
fn compile_glob(text: &str) -> (r: Result<glob::Pattern, glob::PatternError>)
    ensures
        r matches Ok(pattern) ==> glob_text(pattern) == text@,
        portable(text@) ==> (r is Ok <==> glob_compiles(text@)),
{
    glob::Pattern::new(text)
}

/// Calls `glob::Pattern::matches`, which matches the whole of `path` with the
/// crate's default options. The answer depends on the pattern's text and on
/// `path` alone, as long as neither holds a backslash.
#[verifier::external_body]
fn glob_is_match(pattern: &glob::Pattern, path: &str) -> (r: bool)
    ensures
        portable(glob_text(*pattern)) && portable(path@) ==> r == glob_matches(
            glob_text(*pattern),
            path@,
        ),
{
    pattern.matches(path)
}

/// Calls `regex::Regex::new`. An expression that comes back was made from
/// `text`, and whether one comes back depends on `text` alone.
#[verifier::external_body]
fn compile_regex(text: &str) -> (r: Result<regex::Regex, regex::Error>)
    ensures
        r matches Ok(regex) ==> regex_text(regex) == text@,
        r is Ok <==> regex_compiles(text@),
{
    regex::Regex::new(text)
}

/// Calls `regex::Regex::is_match`, which looks for a match anywhere in
/// `haystack`. The answer depends on the expression's text and on `haystack`
/// alone.
#[verifier::external_body]
fn regex_is_match(regex: &regex::Regex, haystack: &str) -> (r: bool)
    ensures
        r == regex_matches(regex_text(*regex), haystack@),
{
    regex.is_match(haystack)
}

/// The texts of a sequence of compiled glob patterns.
pub open spec fn glob_texts(patterns: Seq<glob::Pattern>) -> Seq<Seq<char>> {
    Seq::new(patterns.len(), |i: int| glob_text(patterns[i]))
}

/// Whether one of the patterns matches `path`.
pub open spec fn any_glob_matches(texts: Seq<Seq<char>>, path: Seq<char>) -> bool {
    exists|i: int| 0 <= i < texts.len() && glob_matches(#[trigger] texts[i], path)
}

/// The first text at or after index `i` that does not compile as a glob
/// pattern.
pub open spec fn first_invalid_glob(texts: Seq<Seq<char>>, i: int) -> Option<Seq<char>>
    decreases texts.len() - i,
{
    if i < 0 || i >= texts.len() {
        None
    } else if !glob_compiles(texts[i]) {
        Some(texts[i])
    } else {
        first_invalid_glob(texts, i + 1)
    }
}

/// The glob patterns that choose modules by their file path.
pub struct PathFilter {
    includes: Vec<glob::Pattern>,
    ignores: Vec<glob::Pattern>,
}

/// What a `PathFilter` stands for: the texts of its patterns.
pub struct PathFilterView {
    /// Where there are any, a path has to match one of them.
    pub includes: Seq<Seq<char>>,
    /// A path that matches one of them is left out.
    pub ignores: Seq<Seq<char>>,
}

impl View for PathFilter {
    type V = PathFilterView;

    closed spec fn view(&self) -> PathFilterView {
        PathFilterView { includes: glob_texts(self.includes@), ignores: glob_texts(self.ignores@) }
    }
}

/// Whether the filter takes the path: no pattern to ignore matches it, and
/// one of the others does, if there are others.
pub open spec fn path_accepted(filter: PathFilterView, path: Seq<char>) -> bool {
    !any_glob_matches(filter.ignores, path) && (filter.includes.len() == 0 || any_glob_matches(
        filter.includes,
        path,
    ))
}

/// With nothing to match and one pattern to ignore, exactly the paths that
/// the pattern does not match are taken.
pub proof fn lemma_ignore_alone(ignored: Seq<char>, path: Seq<char>)
    ensures
        path_accepted(PathFilterView { includes: Seq::empty(), ignores: seq![ignored] }, path)
            == !glob_matches(ignored, path),
{
    let ignores = seq![ignored];
    if glob_matches(ignored, path) {
        assert(glob_matches(ignores[0], path));
    }
}

/// With nothing to match, a path is taken exactly when no pattern to ignore
/// matches it.
pub proof fn lemma_no_includes(ignores: Seq<Seq<char>>, path: Seq<char>)
    ensures
        path_accepted(PathFilterView { includes: Seq::empty(), ignores }, path)
            == !any_glob_matches(ignores, path),
{
}

/// The verdict on a path, from what the patterns said of it: `ignored` says
/// whether a pattern to ignore matched, `has_includes` whether there are
/// patterns to match, `included` whether one of them did.
pub fn path_verdict(ignored: bool, has_includes: bool, included: bool) -> (r: bool)
    ensures
        r == (!ignored && (!has_includes || included)),
{
    !ignored && (!has_includes || included)
}

/// Compiles each text, in order, and stops at the first that fails.
fn compile_globs(texts: &Vec<String>) -> (r: Result<Vec<glob::Pattern>, GenerateError>)
    ensures
        match r {
            Ok(patterns) => glob_texts(patterns@) == strings_view(texts@),
            Err(e) => exists|i: int|
                0 <= i < texts.len() && e@ == invalid_pattern(#[trigger] texts@[i]@),
        },
        all_portable(strings_view(texts@)) ==> match r {
            Ok(_) => first_invalid_glob(strings_view(texts@), 0) is None,
            Err(e) => first_invalid_glob(strings_view(texts@), 0) == Some(e@.subject),
        },
{
    let mut patterns: Vec<glob::Pattern> = Vec::new();
    let mut i: usize = 0;
    let ghost views = strings_view(texts@);
    assert(glob_texts(patterns@) =~= views.take(0));
    while i < texts.len()
        invariant
            i <= texts.len(),
            views == strings_view(texts@),
            patterns.len() == i,
            glob_texts(patterns@) == views.take(i as int),
            all_portable(views) ==> first_invalid_glob(views, 0) == first_invalid_glob(
                views,
                i as int,
            ),
        decreases texts.len() - i,
    {
        assert(views[i as int] == texts@[i as int]@);
        match compile_glob(texts[i].as_str()) {
            Ok(pattern) => {
                assert(glob_texts(patterns@.push(pattern)) =~= views.take(i + 1)) by {
                    assert forall|k: int| 0 <= k < i implies glob_text(patterns@[k])
                        == views[k] by {
                        assert(glob_texts(patterns@)[k] == views.take(i as int)[k]);
                    }
                }
                patterns.push(pattern);
            },
            Err(_) => {
                return Err(GenerateError::for_pattern(&texts[i]));
            },
        }
        i += 1;
    }
    assert(views.take(texts.len() as int) =~= views);
    Ok(patterns)
}

/// Makes the filter that decides which files take part.
///
/// Fails with `InvalidPattern`, naming the pattern, where one of the texts is
/// no glob pattern: the patterns to match are tried first, each list in order.
pub fn file_filter_from_file_flags(includes: &Vec<String>, ignores: &Vec<String>) -> (r: Result<
    PathFilter,
    GenerateError,
>)
    ensures
        match r {
            Ok(filter) => filter@.includes == strings_view(includes@) && filter@.ignores
                == strings_view(ignores@),
            Err(e) => (exists|i: int|
                0 <= i < includes.len() && e@ == invalid_pattern(#[trigger] includes@[i]@)) || (
            exists|i: int| 0 <= i < ignores.len() && e@ == invalid_pattern(#[trigger] ignores@[i]@)),
        },
        includes.len() == 0 && ignores.len() == 0 ==> r is Ok,
        all_portable(strings_view(includes@)) && all_portable(strings_view(ignores@)) ==> match r {
            Ok(_) => first_invalid_glob(strings_view(includes@), 0) is None && first_invalid_glob(
                strings_view(ignores@),
                0,
            ) is None,
            Err(e) => Some(e@.subject) == (if first_invalid_glob(strings_view(includes@), 0)
                is Some {
                first_invalid_glob(strings_view(includes@), 0)
            } else {
                first_invalid_glob(strings_view(ignores@), 0)
            }),
        },
{
    let included = match compile_globs(includes) {
        Ok(patterns) => patterns,
        Err(e) => {
            return Err(e);
        },
    };
    let ignored = match compile_globs(ignores) {
        Ok(patterns) => patterns,
        Err(e) => {
            return Err(e);
        },
    };
    Ok(PathFilter { includes: included, ignores: ignored })
}

/// Whether one of the patterns matches `path`.
fn any_pattern_matches(patterns: &Vec<glob::Pattern>, path: &str) -> (r: bool)
    ensures
        all_portable(glob_texts(patterns@)) && portable(path@) ==> r == any_glob_matches(
            glob_texts(patterns@),
            path@,
        ),
        patterns.len() == 0 ==> !r,
{
    let ghost texts = glob_texts(patterns@);
    let mut i: usize = 0;
    while i < patterns.len()
        invariant
            i <= patterns.len(),
            texts == glob_texts(patterns@),
            all_portable(texts) && portable(path@) ==> forall|j: int|
                0 <= j < i ==> !glob_matches(#[trigger] texts[j], path@),
        decreases patterns.len() - i,
    {
        assert(texts[i as int] == glob_text(patterns@[i as int]));
        if glob_is_match(&patterns[i], path) {
            return true;
        }
        i += 1;
    }
    false
}

impl PathFilter {
    /// Whether the module with the file path `path` takes part: no pattern to
    /// ignore matches the path, and one of the patterns to match does, if
    /// there are any.
    pub fn accepts(&self, path: &str) -> (r: bool)
        ensures
            all_portable(self@.includes) && all_portable(self@.ignores) && portable(path@) ==> r
                == path_accepted(self@, path@),
            self@.includes.len() == 0 && self@.ignores.len() == 0 ==> r,
    {
        let ignored = any_pattern_matches(&self.ignores, path);
        let included = any_pattern_matches(&self.includes, path);
        path_verdict(ignored, self.includes.len() > 0, included)
    }
}

/// The regular expressions that choose directives by the text of their line.
pub struct CommentFilter {
    run: Option<regex::Regex>,
    skip: Option<regex::Regex>,
}

/// What a `CommentFilter` stands for: the texts of its expressions.
pub struct CommentFilterView {
    /// Where it is there, only lines that it matches run.
    pub run: Option<Seq<char>>,
    /// Where it is there, lines that it matches do not run.
    pub skip: Option<Seq<char>>,
}

/// The text of an expression that may be absent.
pub open spec fn optional_regex_text(regex: Option<regex::Regex>) -> Option<Seq<char>> {
    match regex {
        Some(r) => Some(regex_text(r)),
        None => None,
    }
}

/// The view of a text that may be absent.
pub open spec fn optional_text(text: Option<String>) -> Option<Seq<char>> {
    match text {
        Some(t) => Some(t@),
        None => None,
    }
}

impl View for CommentFilter {
    type V = CommentFilterView;

    closed spec fn view(&self) -> CommentFilterView {
        CommentFilterView {
            run: optional_regex_text(self.run),
            skip: optional_regex_text(self.skip),
        }
    }
}

/// Whether the filter lets the line `original` run: `run` matches it or is
/// absent, and `skip` does not match it or is absent.
pub open spec fn comment_accepted(filter: CommentFilterView, original: Seq<char>) -> bool {
    (match filter.run {
        Some(run) => regex_matches(run, original),
        None => true,
    }) && (match filter.skip {
        Some(skip) => !regex_matches(skip, original),
        None => true,
    })
}

/// A line that `skip` matches does not run, whether or not `run` matches it.
pub proof fn lemma_skip_wins(filter: CommentFilterView, original: Seq<char>)
    requires
        filter.skip matches Some(skip) && regex_matches(skip, original),
    ensures
        !comment_accepted(filter, original),
{
}

/// Without `run` and `skip`, every line runs.
pub proof fn lemma_no_filter_accepts(original: Seq<char>)
    ensures
        comment_accepted(CommentFilterView { run: None, skip: None }, original),
{
}

/// The first text that does not compile, in the order in which a
/// configuration is compiled: the globs to match, the globs to ignore, `run`,
/// `skip`.
pub open spec fn first_invalid_pattern(
    includes: Seq<Seq<char>>,
    ignores: Seq<Seq<char>>,
    run: Option<Seq<char>>,
    skip: Option<Seq<char>>,
) -> Option<Seq<char>> {
    if first_invalid_glob(includes, 0) is Some {
        first_invalid_glob(includes, 0)
    } else if first_invalid_glob(ignores, 0) is Some {
        first_invalid_glob(ignores, 0)
    } else if run is Some && !regex_compiles(run->0) {
        run
    } else if skip is Some && !regex_compiles(skip->0) {
        skip
    } else {
        None
    }
}

/// The verdict on a directive, from what the expressions said of its line:
/// `None` stands for an absent expression, `Some` holds whether it matched.
pub fn comment_verdict(run: Option<bool>, skip: Option<bool>) -> (r: bool)
    ensures
        r == (run != Some(false) && skip != Some(true)),
{
    let run_allows = match run {
        Some(matched) => matched,
        None => true,
    };
    let skip_allows = match skip {
        Some(matched) => !matched,
        None => true,
    };
    run_allows && skip_allows
}

/// Compiles the text, if there is one.
fn compile_optional_regex(text: &Option<String>) -> (r: Result<
    Option<regex::Regex>,
    GenerateError,
>)
    ensures
        match r {
            Ok(regex) => optional_regex_text(regex) == optional_text(*text) && (text matches Some(t)
                ==> regex_compiles(t@)),
            Err(e) => text matches Some(t) && !regex_compiles(t@) && e@ == invalid_pattern(t@),
        },
{
    match text {
        Some(t) => match compile_regex(t.as_str()) {
            Ok(regex) => Ok(Some(regex)),
            Err(_) => Err(GenerateError::for_pattern(t)),
        },
        None => Ok(None),
    }
}

/// Makes the filter that decides which directives run.
///
/// Fails with `InvalidPattern`, naming the text, exactly where `run` or
/// `skip` is there and is no regular expression; `run` is tried first.
pub fn comment_filter_from_generate_flags(run: &Option<String>, skip: &Option<String>) -> (r:
    Result<CommentFilter, GenerateError>)
    ensures
        match r {
            Ok(filter) => {
                &&& filter@.run == optional_text(*run)
                &&& filter@.skip == optional_text(*skip)
                &&& run matches Some(t) ==> regex_compiles(t@)
                &&& skip matches Some(t) ==> regex_compiles(t@)
            },
            Err(e) => if run matches Some(t) && !regex_compiles(t@) {
                e@ == invalid_pattern(run->0@)
            } else {
                skip matches Some(t) && !regex_compiles(t@) && e@ == invalid_pattern(t@)
            },
        },
{
    let run_regex = match compile_optional_regex(run) {
        Ok(regex) => regex,
        Err(e) => {
            return Err(e);
        },
    };
    let skip_regex = match compile_optional_regex(skip) {
        Ok(regex) => regex,
        Err(e) => {
            return Err(e);
        },
    };
    Ok(CommentFilter { run: run_regex, skip: skip_regex })
}

impl CommentFilter {
    /// Whether the directive runs: `run` matches its line or is absent, and
    /// `skip` does not match its line or is absent.
    pub fn accepts(&self, comment: &ParsedComment) -> (r: bool)
        ensures
            r == comment_accepted(self@, comment@.original),
    {
        let run = match &self.run {
            Some(regex) => Some(regex_is_match(regex, comment.original.as_str())),
            None => None,
        };
        let skip = match &self.skip {
            Some(regex) => Some(regex_is_match(regex, comment.original.as_str())),
            None => None,
        };
        comment_verdict(run, skip)
    }
}

} // verus!
