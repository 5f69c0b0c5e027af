//! Finding the generate directives in a module's source text.
//!
//! A line is a directive where, after its leading whitespace, it begins with
//! the marker. What follows the marker is split into tokens. Where the first
//! token has the form `name=...`, the line defines the alias `name`; otherwise
//! the first token is the command to run and the others are its arguments.

use vstd::prelude::*;
use vstd::string::StringExecFns;
use crate::error::ErrorKind;
use crate::quoted_split::{find_char, is_space_byte, skip_spaces, split_chars, tokenize};
use crate::text::{lemma_strings_view_push, string_from_chars, strings_view, to_chars};

verus! {

/// The literal that a directive line begins with.
pub const MARKER: &'static str = "//deno:generate";

/// The characters of the marker.
pub open spec fn marker() -> Seq<char> {
    MARKER@
}

/// One generate directive as it stands in the source.
#[derive(Clone, Debug, PartialEq, Eq)]
pub struct ParsedComment {
    /// The line of the directive, counted from 1.
    pub line: usize,
    /// The position of the marker's first character in its line, counted from 1.
    pub character: usize,
    /// The whole line as written, without its line ending.
    pub original: String,
    /// The alias that the directive defines, if it defines one.
    pub alias_name: Option<String>,
    /// The command of the directive, or of the alias that it defines.
    pub command: String,
    /// The arguments that follow the command.
    pub args: Vec<String>,
}

/// What a `ParsedComment` stands for.
pub struct ParsedCommentView {
    pub line: nat,
    pub character: nat,
    pub original: Seq<char>,
    pub alias_name: Option<Seq<char>>,
    pub command: Seq<char>,
    pub args: Seq<Seq<char>>,
}

impl View for ParsedComment {
    type V = ParsedCommentView;

    open spec fn view(&self) -> ParsedCommentView {
        ParsedCommentView {
            line: self.line as nat,
            character: self.character as nat,
            original: self.original@,
            alias_name: match self.alias_name {
                Some(name) => Some(name@),
                None => None,
            },
            command: self.command@,
            args: strings_view(self.args@),
        }
    }
}

impl ParsedCommentView {
    /// Whether the directive defines an alias. A directive that does not is
    /// one to run.
    pub open spec fn is_alias_definition(self) -> bool {
        self.alias_name is Some
    }

    /// The command and its arguments, joined by single spaces.
    pub open spec fn command_full(self) -> Seq<char> {
        join_words(self.command, self.args)
    }
}

/// `first` and then each of `rest` after a single space.
pub open spec fn join_words(first: Seq<char>, rest: Seq<Seq<char>>) -> Seq<char>
    decreases rest.len(),
{
    if rest.len() == 0 {
        first
    } else {
        join_words(first, rest.drop_last()) + seq![' '] + rest.last()
    }
}

/// Where in a module a directive could not be read, and why.
#[derive(Clone, Copy, Debug, PartialEq, Eq)]
pub struct ParseFailure {
    pub kind: ErrorKind,
    /// The line of the directive, counted from 1.
    pub line: usize,
    /// The position of the marker's first character in its line, counted from 1.
    pub character: usize,
}

/// What a `ParseFailure` stands for.
pub struct ParseFailureView {
    pub kind: ErrorKind,
    pub line: nat,
    pub character: nat,
}

impl View for ParseFailure {
    type V = ParseFailureView;

    open spec fn view(&self) -> ParseFailureView {
        ParseFailureView {
            kind: self.kind,
            line: self.line as nat,
            character: self.character as nat,
        }
    }
}

/// The directives of a module, in source order, up to the first one that could
/// not be read.
pub struct ParsedComments {
    pub comments: Vec<ParsedComment>,
    /// The directive at which reading stopped, if it stopped.
    pub failure: Option<ParseFailure>,
}

/// What a `ParsedComments` stands for.
pub struct ParsedCommentsView {
    pub comments: Seq<ParsedCommentView>,
    pub failure: Option<ParseFailureView>,
}

/// The views of a sequence of directives.
pub open spec fn comments_view(v: Seq<ParsedComment>) -> Seq<ParsedCommentView> {
    Seq::new(v.len(), |i: int| v[i]@)
}

impl View for ParsedComments {
    type V = ParsedCommentsView;

    open spec fn view(&self) -> ParsedCommentsView {
        ParsedCommentsView {
            comments: comments_view(self.comments@),
            failure: match self.failure {
                Some(f) => Some(f@),
                None => None,
            },
        }
    }
}

/// Whether `prefix` stands in `s` at index `at`.
pub open spec fn starts_with(s: Seq<char>, at: int, prefix: Seq<char>) -> bool {
    0 <= at && at + prefix.len() <= s.len() && s.subrange(at, at + prefix.len()) == prefix
}

/// `line` without the carriage return at its end, if it ends in one.
pub open spec fn strip_cr(line: Seq<char>) -> Seq<char> {
    if line.len() > 0 && line.last() == '\r' {
        line.drop_last()
    } else {
        line
    }
}

/// The directive that the tokens of a marker line make up. The first token
/// defines an alias where an `=` stands in it behind at least one character:
/// the alias is named by what precedes the `=`, and its command is what
/// follows it or, where nothing follows, the next token.
pub open spec fn directive_of(
    tokens: Seq<Seq<char>>,
    line: nat,
    character: nat,
    original: Seq<char>,
) -> ParsedCommentView
    recommends
        tokens.len() > 0,
{
    let first = tokens[0];
    let eq = find_char(first, '=', 0);
    if 0 < eq < first.len() {
        let name = first.take(eq);
        let rest = first.skip(eq + 1);
        if rest.len() > 0 {
            ParsedCommentView {
                line,
                character,
                original,
                alias_name: Some(name),
                command: rest,
                args: tokens.skip(1),
            }
        } else if tokens.len() > 1 {
            ParsedCommentView {
                line,
                character,
                original,
                alias_name: Some(name),
                command: tokens[1],
                args: tokens.skip(2),
            }
        } else {
            ParsedCommentView {
                line,
                character,
                original,
                alias_name: Some(name),
                command: Seq::empty(),
                args: Seq::empty(),
            }
        }
    } else {
        ParsedCommentView {
            line,
            character,
            original,
            alias_name: None,
            command: first,
            args: tokens.skip(1),
        }
    }
}

/// What the line `text`, the `line`-th of its module, holds: no directive, a
/// directive, or one whose quotes do not close. A marker with nothing behind
/// it is no directive.
pub open spec fn parse_line(text: Seq<char>, line: nat) -> Result<
    Option<ParsedCommentView>,
    ParseFailureView,
> {
    let indent = skip_spaces(text, 0);
    if !starts_with(text, indent, marker()) {
        Ok(None)
    } else {
        let character = (indent + 1) as nat;
        match tokenize(text.skip(indent + marker().len())) {
            None => Err(
                ParseFailureView { kind: ErrorKind::UnterminatedQuote, line, character },
            ),
            Some(tokens) => if tokens.len() == 0 {
                Ok(None)
            } else {
                Ok(Some(directive_of(tokens, line, character, text)))
            },
        }
    }
}

/// No directive and no failure.
pub open spec fn no_comments() -> ParsedCommentsView {
    ParsedCommentsView { comments: Seq::empty(), failure: None }
}

/// `found` and then what `rest` holds.
pub open spec fn found_then(
    found: Seq<ParsedCommentView>,
    rest: ParsedCommentsView,
) -> ParsedCommentsView {
    ParsedCommentsView { comments: found + rest.comments, failure: rest.failure }
}

/// The directives of the lines of `s` that begin at index `start` or later,
/// where `start` begins the `line`-th line. Lines end at a line feed; a
/// carriage return in front of it does not belong to the line.
pub open spec fn parse_from(s: Seq<char>, start: int, line: nat) -> ParsedCommentsView
    decreases s.len() - start,
{
    if start < 0 || start >= s.len() {
        no_comments()
    } else {
        let end = find_char(s, '\n', start);
        let rest = if start <= end < s.len() {
            parse_from(s, end + 1, line + 1)
        } else {
            no_comments()
        };
        match parse_line(strip_cr(s.subrange(start, end)), line) {
            Err(failure) => ParsedCommentsView { comments: Seq::empty(), failure: Some(failure) },
            Ok(None) => rest,
            Ok(Some(comment)) => found_then(seq![comment], rest),
        }
    }
}

/// The directives of the source text `s`.
pub open spec fn parse(s: Seq<char>) -> ParsedCommentsView {
    parse_from(s, 0, 1)
}

impl ParsedComment {
    /// The alias that this directive defines, if it defines one.
    pub fn alias(&self) -> (r: Option<&String>)
        ensures
            match r {
                Some(name) => self@.alias_name == Some(name@),
                None => self@.alias_name is None,
            },
    {
        self.alias_name.as_ref()
    }

    /// The command of this directive.
    pub fn command(&self) -> (r: &String)
        ensures
            r@ == self@.command,
    {
        &self.command
    }

    /// The arguments of this directive.
    pub fn args(&self) -> (r: &Vec<String>)
        ensures
            strings_view(r@) == self@.args,
    {
        &self.args
    }

    /// The command and its arguments, joined by single spaces.
    pub fn command_full(&self) -> (r: String)
        ensures
            r@ == self@.command_full(),
    {
        join_command(&self.command, &self.args)
    }
}

/// `first` and then each of `rest` after a single space.
pub fn join_command(first: &String, rest: &Vec<String>) -> (r: String)
    ensures
        r@ == join_words(first@, strings_view(rest@)),
{
    let mut out = first.clone();
    let mut i: usize = 0;
    while i < rest.len()
        invariant
            i <= rest.len(),
            out@ == join_words(first@, strings_view(rest@).take(i as int)),
        decreases rest.len() - i,
    {
        let ghost views = strings_view(rest@);
        proof {
            assert(views.take(i + 1).drop_last() =~= views.take(i as int));
            assert(views.take(i + 1).last() == rest@[i as int]@);
        }
        out.push(' ');
        out.append(rest[i].as_str());
        i += 1;
    }
    proof {
        assert(strings_view(rest@).take(rest.len() as int) =~= strings_view(rest@));
    }
    out
}

/// The characters `v[from..to]`.
fn copy_chars(v: &Vec<char>, from: usize, to: usize) -> (r: Vec<char>)
    requires
        from <= to <= v.len(),
    ensures
        r@ == v@.subrange(from as int, to as int),
{
    let mut r: Vec<char> = Vec::new();
    let mut i: usize = from;
    while i < to
        invariant
            from <= i <= to <= v.len(),
            r@ == v@.subrange(from as int, i as int),
        decreases to - i,
    {
        r.push(v[i]);
        i += 1;
    }
    r
}

/// Whether `prefix` stands in `text` at index `at`.
fn has_prefix_at(text: &Vec<char>, at: usize, prefix: &Vec<char>) -> (b: bool)
    requires
        at <= text.len(),
    ensures
        b == starts_with(text@, at as int, prefix@),
{
    if prefix.len() > text.len() - at {
        return false;
    }
    let mut i: usize = 0;
    while i < prefix.len()
        invariant
            at + prefix.len() <= text.len(),
            i <= prefix.len(),
            forall|j: int| 0 <= j < i ==> text@[at + j] == prefix@[j],
        decreases prefix.len() - i,
    {
        if text[at + i] != prefix[i] {
            assert(text@.subrange(at as int, at + prefix.len())[i as int] != prefix@[i as int]);
            return false;
        }
        i += 1;
    }
    assert(text@.subrange(at as int, at + prefix.len()) =~= prefix@);
    true
}

/// The tokens from index `from` on.
fn tokens_after(tokens: &Vec<String>, from: usize) -> (r: Vec<String>)
    requires
        from <= tokens.len(),
    ensures
        strings_view(r@) == strings_view(tokens@).skip(from as int),
{
    let mut r: Vec<String> = Vec::new();
    let mut i: usize = from;
    assert(strings_view(r@) =~= strings_view(tokens@).subrange(from as int, i as int));
    while i < tokens.len()
        invariant
            from <= i <= tokens.len(),
            strings_view(r@) == strings_view(tokens@).subrange(from as int, i as int),
        decreases tokens.len() - i,
    {
        let token = tokens[i].clone();
        proof {
            lemma_strings_view_push(r@, token);
            assert(strings_view(tokens@).subrange(from as int, i + 1) =~= strings_view(
                tokens@,
            ).subrange(from as int, i as int).push(token@));
        }
        r.push(token);
        i += 1;
    }
    assert(strings_view(tokens@).subrange(from as int, tokens.len() as int) =~= strings_view(
        tokens@,
    ).skip(from as int));
    r
}

/// The directive that the tokens of a marker line make up.
fn directive_from_tokens(
    tokens: &Vec<String>,
    line: usize,
    character: usize,
    original: String,
) -> (r: ParsedComment)
    requires
        tokens.len() > 0,
    ensures
        r@ == directive_of(strings_view(tokens@), line as nat, character as nat, original@),
{
    let first = to_chars(tokens[0].as_str());
    let n = first.len();
    let mut eq: usize = 0;
    while eq < n && first[eq] != '='
        invariant
            n == first.len(),
            eq <= n,
            find_char(first@, '=', 0) == find_char(first@, '=', eq as int),
        decreases n - eq,
    {
        eq += 1;
    }
    let ghost views = strings_view(tokens@);
    assert(views[0] == first@);
    let r = if 0 < eq && eq < n {
        let name = string_from_chars(&first, 0, eq);
        assert(name@ =~= first@.take(eq as int));
        if eq + 1 < n {
            let command = string_from_chars(&first, eq + 1, n);
            assert(command@ =~= first@.skip(eq + 1));
            let args = tokens_after(tokens, 1);
            ParsedComment { line, character, original, alias_name: Some(name), command, args }
        } else if tokens.len() > 1 {
            let command = tokens[1].clone();
            assert(command@ == views[1]);
            let args = tokens_after(tokens, 2);
            ParsedComment { line, character, original, alias_name: Some(name), command, args }
        } else {
            let command = String::new();
            let args: Vec<String> = Vec::new();
            assert(strings_view(args@) =~= Seq::<Seq<char>>::empty());
            ParsedComment { line, character, original, alias_name: Some(name), command, args }
        }
    } else {
        let command = tokens[0].clone();
        let args = tokens_after(tokens, 1);
        ParsedComment { line, character, original, alias_name: None, command, args }
    };
    r
}

/// Reads the line `text`, the `line`-th of its module.
fn parse_line_chars(text: &Vec<char>, line: usize, marker: &Vec<char>) -> (r: Result<
    Option<ParsedComment>,
    ParseFailure,
>)
    requires
        marker@ == self::marker(),
    ensures
        match r {
            Ok(Some(comment)) => parse_line(text@, line as nat) == Ok::<
                Option<ParsedCommentView>,
                ParseFailureView,
            >(Some(comment@)),
            Ok(None) => parse_line(text@, line as nat) == Ok::<
                Option<ParsedCommentView>,
                ParseFailureView,
            >(None),
            Err(failure) => parse_line(text@, line as nat) == Err::<
                Option<ParsedCommentView>,
                ParseFailureView,
            >(failure@),
        },
{
    proof {
        reveal_strlit("//deno:generate");
    }
    let n = text.len();
    let mut indent: usize = 0;
    while indent < n && is_space_byte(text[indent])
        invariant
            n == text.len(),
            indent <= n,
            skip_spaces(text@, 0) == skip_spaces(text@, indent as int),
        decreases n - indent,
    {
        indent += 1;
    }
    if !has_prefix_at(text, indent, marker) {
        return Ok(None);
    }
    let character = indent + 1;
    let body = copy_chars(text, indent + marker.len(), n);
    assert(body@ =~= text@.skip(indent + self::marker().len()));
    match split_chars(&body) {
        Err(_) => Err(ParseFailure { kind: ErrorKind::UnterminatedQuote, line, character }),
        Ok(tokens) => {
            if tokens.len() == 0 {
                Ok(None)
            } else {
                let original = string_from_chars(text, 0, n);
                assert(original@ =~= text@);
                Ok(Some(directive_from_tokens(&tokens, line, character, original)))
            }
        },
    }
}

proof fn lemma_found_then_push(
    found: Seq<ParsedCommentView>,
    comment: ParsedCommentView,
    rest: ParsedCommentsView,
)
    ensures
        found_then(found, found_then(seq![comment], rest)) == found_then(found.push(comment), rest),
{
    assert(found + (seq![comment] + rest.comments) =~= found.push(comment) + rest.comments);
}

/// Reads the directives of a module's source text, top to bottom.
///
/// Reading stops at the first directive whose quotes do not close: the result
/// holds the directives before it and says where it stands.
pub fn parse_comments(source: &str) -> (r: ParsedComments)
    ensures
        r@ == parse(source@),
{
    let chars = to_chars(source);
    let marker = to_chars(MARKER);
    let n = chars.len();
    let mut comments: Vec<ParsedComment> = Vec::new();
    let mut start: usize = 0;
    let mut line_index: usize = 0;
    assert(found_then(comments_view(comments@), parse_from(chars@, 0, 1)) =~= parse_from(
        chars@,
        0,
        1,
    )) by {
        assert(comments_view(comments@) + parse_from(chars@, 0, 1).comments =~= parse_from(
            chars@,
            0,
            1,
        ).comments);
    }
    loop
        invariant
            n == chars.len(),
            chars@ == source@,
            marker@ == self::marker(),
            line_index <= start <= n,
            parse(chars@) == found_then(
                comments_view(comments@),
                parse_from(chars@, start as int, (line_index + 1) as nat),
            ),
        decreases n - start,
    {
        let ghost found = comments_view(comments@);
        if start >= n {
            assert(found + Seq::<ParsedCommentView>::empty() =~= found);
            return ParsedComments { comments, failure: None };
        }
        let mut end: usize = start;
        while end < n && chars[end] != '\n'
            invariant
                n == chars.len(),
                start <= end <= n,
                find_char(chars@, '\n', start as int) == find_char(chars@, '\n', end as int),
            decreases n - end,
        {
            end += 1;
        }
        let stop = if end > start && chars[end - 1] == '\r' {
            end - 1
        } else {
            end
        };
        let text = copy_chars(&chars, start, stop);
        assert(text@ =~= strip_cr(chars@.subrange(start as int, end as int)));
        let ghost rest = if end < n {
            parse_from(chars@, end + 1, (line_index + 2) as nat)
        } else {
            no_comments()
        };
        match parse_line_chars(&text, line_index + 1, &marker) {
            Err(failure) => {
                assert(found + Seq::<ParsedCommentView>::empty() =~= found);
                return ParsedComments { comments, failure: Some(failure) };
            },
            Ok(None) => {},
            Ok(Some(comment)) => {
                proof {
                    lemma_found_then_push(found, comment@, rest);
                    assert(comments_view(comments@.push(comment)) =~= found.push(comment@));
                }
                comments.push(comment);
            },
        }
        if end >= n {
            assert(comments_view(comments@) + Seq::<ParsedCommentView>::empty()
                =~= comments_view(comments@));
            return ParsedComments { comments, failure: None };
        }
        start = end + 1;
        line_index += 1;
    }
}

} // verus!
