//! From the directives of a module to the commands that it runs.

use vstd::prelude::*;
use vstd::string::StringExecFns;
use crate::alias::{expansion, AliasRegistry, AliasView};
use crate::error::{GenerateError, GenerateErrorView};
use crate::filter::{comment_accepted, CommentFilter, CommentFilterView};
use crate::parse_comments::{
    comments_view, join_command, join_words, parse, parse_comments, ParsedComment,
    ParsedCommentView, ParseFailureView,
};
use crate::text::{decimal, decimal_string, strings_view};

verus! {

/// A unit of source code: what names it, and its text.
#[derive(Clone, Debug, PartialEq, Eq)]
pub struct Module {
    pub specifier: String,
    pub source_text: String,
}

/// A command ready to be run: the program, its arguments, and the variables
/// to set in its environment, on top of the ones that the caller has.
#[derive(Clone, Debug, PartialEq, Eq)]
pub struct CommandInvocation {
    pub program: String,
    pub args: Vec<String>,
    pub env: Vec<(String, String)>,
}

/// What a `CommandInvocation` stands for.
pub struct CommandInvocationView {
    pub program: Seq<char>,
    pub args: Seq<Seq<char>>,
    pub env: Seq<(Seq<char>, Seq<char>)>,
}

/// The views of a sequence of pairs of strings.
pub open spec fn pairs_view(v: Seq<(String, String)>) -> Seq<(Seq<char>, Seq<char>)> {
    Seq::new(v.len(), |i: int| (v[i].0@, v[i].1@))
}

impl View for CommandInvocation {
    type V = CommandInvocationView;

    open spec fn view(&self) -> CommandInvocationView {
        CommandInvocationView {
            program: self.program@,
            args: strings_view(self.args@),
            env: pairs_view(self.env@),
        }
    }
}

impl CommandInvocationView {
    /// The program and its arguments, joined by single spaces.
    pub open spec fn command_full(self) -> Seq<char> {
        join_words(self.program, self.args)
    }
}

impl CommandInvocation {
    /// The program and its arguments, joined by single spaces.
    pub fn command_full(&self) -> (r: String)
        ensures
            r@ == self@.command_full(),
    {
        join_command(&self.program, &self.args)
    }
}

/// A command to run, with the place of the directive that asks for it.
#[derive(Clone, Debug, PartialEq, Eq)]
pub struct GenerateCommand {
    /// The line of the directive, counted from 1.
    pub line: usize,
    /// The position of the directive in its line, counted from 1.
    pub character: usize,
    pub invocation: CommandInvocation,
}

/// What a `GenerateCommand` stands for.
pub struct GenerateCommandView {
    pub line: nat,
    pub character: nat,
    pub invocation: CommandInvocationView,
}

impl View for GenerateCommand {
    type V = GenerateCommandView;

    open spec fn view(&self) -> GenerateCommandView {
        GenerateCommandView {
            line: self.line as nat,
            character: self.character as nat,
            invocation: self.invocation@,
        }
    }
}

/// The views of a sequence of commands.
pub open spec fn commands_view(v: Seq<GenerateCommand>) -> Seq<GenerateCommandView> {
    Seq::new(v.len(), |i: int| v[i]@)
}

/// The commands of a module, in source order, and the failure at which its
/// directives stopped being read, if they did.
#[derive(Clone, Debug, PartialEq, Eq)]
pub struct ModulePlan {
    pub commands: Vec<GenerateCommand>,
    pub failure: Option<GenerateError>,
}

/// What a `ModulePlan` stands for.
pub struct ModulePlanView {
    pub commands: Seq<GenerateCommandView>,
    pub failure: Option<GenerateErrorView>,
}

impl View for ModulePlan {
    type V = ModulePlanView;

    open spec fn view(&self) -> ModulePlanView {
        ModulePlanView {
            commands: commands_view(self.commands@),
            failure: match self.failure {
                Some(e) => Some(e@),
                None => None,
            },
        }
    }
}

/// What the commands of a module are made with, besides its text.
pub struct ModuleContext {
    /// The name of the operating system that the commands run on.
    pub os: Seq<char>,
    /// The module's specifier.
    pub specifier: Seq<char>,
    /// The directory of the module's file.
    pub dir: Seq<char>,
    /// Which directives run.
    pub filter: CommentFilterView,
}

/// The variables that a directive's command gets: the operating system, the
/// module, the directive's line and character as decimal numerals, the
/// module's directory, and a dollar sign.
pub open spec fn directive_env(
    os: Seq<char>,
    specifier: Seq<char>,
    dir: Seq<char>,
    line: nat,
    character: nat,
) -> Seq<(Seq<char>, Seq<char>)> {
    seq![
        ("DENO_OS"@, os),
        ("DENO_MODULE"@, specifier),
        ("DENO_LINE"@, decimal(line)),
        ("DENO_CHARACTER"@, decimal(character)),
        ("DENO_DIR"@, dir),
        ("DOLLAR"@, "$"@),
    ]
}

/// The command that the directive `comment` runs, given the aliases defined
/// before it.
pub open spec fn command_of(
    comment: ParsedCommentView,
    aliases: Map<Seq<char>, AliasView>,
    context: ModuleContext,
) -> GenerateCommandView {
    let resolved = expansion(aliases, comment.command, comment.args);
    GenerateCommandView {
        line: comment.line,
        character: comment.character,
        invocation: CommandInvocationView {
            program: resolved.command,
            args: resolved.args,
            env: directive_env(
                context.os,
                context.specifier,
                context.dir,
                comment.line,
                comment.character,
            ),
        },
    }
}

/// The commands of the directives from index `i` on, in order, given the
/// aliases defined before. A directive that defines an alias runs nothing and
/// is seen by the directives behind it; the filter is not asked about it. Any
/// other directive runs if the filter lets it.
pub open spec fn commands_from(
    comments: Seq<ParsedCommentView>,
    i: int,
    aliases: Map<Seq<char>, AliasView>,
    context: ModuleContext,
) -> Seq<GenerateCommandView>
    decreases comments.len() - i,
{
    if i < 0 || i >= comments.len() {
        Seq::empty()
    } else {
        let comment = comments[i];
        match comment.alias_name {
            Some(name) => commands_from(
                comments,
                i + 1,
                aliases.insert(name, AliasView { command: comment.command, args: comment.args }),
                context,
            ),
            None => if comment_accepted(context.filter, comment.original) {
                seq![command_of(comment, aliases, context)] + commands_from(
                    comments,
                    i + 1,
                    aliases,
                    context,
                )
            } else {
                commands_from(comments, i + 1, aliases, context)
            },
        }
    }
}

/// The error for a directive of the module `specifier` that could not be read.
pub open spec fn parse_error(specifier: Seq<char>, failure: ParseFailureView) -> GenerateErrorView {
    GenerateErrorView {
        kind: failure.kind,
        specifier: Some(specifier),
        position: Some((failure.line, failure.character)),
        subject: Seq::empty(),
    }
}

/// The commands of the module with the text `source`: those of its directives
/// up to the first that cannot be read, with no alias defined at the start.
pub open spec fn module_plan(source: Seq<char>, context: ModuleContext) -> ModulePlanView {
    let parsed = parse(source);
    ModulePlanView {
        commands: commands_from(parsed.comments, 0, Map::empty(), context),
        failure: match parsed.failure {
            Some(failure) => Some(parse_error(context.specifier, failure)),
            None => None,
        },
    }
}

/// Returns the environment variables to be passed to the command.
pub fn envs_from(os: &str, module: &Module, dir: &str, comment: &ParsedComment) -> (r: Vec<
    (String, String),
>)
    ensures
        pairs_view(r@) == directive_env(
            os@,
            module.specifier@,
            dir@,
            comment@.line,
            comment@.character,
        ),
{
    let mut r: Vec<(String, String)> = Vec::new();
    r.push((String::from_str("DENO_OS"), String::from_str(os)));
    r.push((String::from_str("DENO_MODULE"), module.specifier.clone()));
    r.push((String::from_str("DENO_LINE"), decimal_string(comment.line)));
    r.push((String::from_str("DENO_CHARACTER"), decimal_string(comment.character)));
    r.push((String::from_str("DENO_DIR"), String::from_str(dir)));
    r.push((String::from_str("DOLLAR"), String::from_str("$")));
    assert(pairs_view(r@) =~= directive_env(
        os@,
        module.specifier@,
        dir@,
        comment@.line,
        comment@.character,
    ));
    r
}

/// Collects the generate commands from the comments in the given module.
///
/// `os` names the operating system and `dir` the directory of the module's
/// file; both go into the environment of each command. Aliases hold for the
/// rest of the module from their definition on, and for no other module.
pub fn collect_generate_commands(
    module: &Module,
    os: &str,
    dir: &str,
    filter: &CommentFilter,
) -> (r: ModulePlan)
    ensures
        r@ == module_plan(
            module.source_text@,
            ModuleContext { os: os@, specifier: module.specifier@, dir: dir@, filter: filter@ },
        ),
{
    let ghost context = ModuleContext {
        os: os@,
        specifier: module.specifier@,
        dir: dir@,
        filter: filter@,
    };
    let parsed = parse_comments(module.source_text.as_str());
    let ghost all = comments_view(parsed.comments@);
    let mut aliases = AliasRegistry::new();
    let mut commands: Vec<GenerateCommand> = Vec::new();
    let mut i: usize = 0;
    assert(commands_view(commands@) + commands_from(all, 0, aliases@, context) =~= commands_from(
        all,
        0,
        aliases@,
        context,
    ));
    while i < parsed.comments.len()
        invariant
            i <= parsed.comments.len(),
            all == comments_view(parsed.comments@),
            context == (ModuleContext {
                os: os@,
                specifier: module.specifier@,
                dir: dir@,
                filter: filter@,
            }),
            commands_from(all, 0, Map::empty(), context) == commands_view(commands@)
                + commands_from(all, i as int, aliases@, context),
        decreases parsed.comments.len() - i,
    {
        let comment = &parsed.comments[i];
        assert(all[i as int] == comment@);
        match &comment.alias_name {
            Some(name) => {
                aliases.define(name, &comment.command, &comment.args);
            },
            None => {
                if filter.accepts(comment) {
                    let resolved = aliases.resolve_command(&comment.command, &comment.args);
                    let command = GenerateCommand {
                        line: comment.line,
                        character: comment.character,
                        invocation: CommandInvocation {
                            program: resolved.command,
                            args: resolved.args,
                            env: envs_from(os, module, dir, comment),
                        },
                    };
                    assert(command@ == command_of(comment@, aliases@, context));
                    assert(commands_view(commands@.push(command)) + commands_from(
                        all,
                        i + 1,
                        aliases@,
                        context,
                    ) =~= commands_view(commands@) + (seq![command@] + commands_from(
                        all,
                        i + 1,
                        aliases@,
                        context,
                    )));
                    commands.push(command);
                }
            },
        }
        i += 1;
    }
    assert(commands_view(commands@) + Seq::<GenerateCommandView>::empty() =~= commands_view(
        commands@,
    ));
    let failure = match parsed.failure {
        Some(f) => Some(
            GenerateError {
                kind: f.kind,
                specifier: Some(module.specifier.clone()),
                position: Some((f.line, f.character)),
                subject: String::new(),
            },
        ),
        None => None,
    };
    ModulePlan { commands, failure }
}

} // verus!
