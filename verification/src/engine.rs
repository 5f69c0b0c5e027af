//! What is announced, spawned and reported for each command.
//!
//! The library decides; its caller acts. Before a command the caller asks
//! `begin_command` what to print and whether to spawn. After the process has
//! ended, or could not be started, it hands the outcome to `finish_command` and
//! learns what to print, which failure to record, and whether to go on.

use vstd::prelude::*;
use vstd::string::StringExecFns;
use crate::command::{
    collect_generate_commands, module_plan, GenerateCommand, GenerateCommandView, Module,
    ModuleContext, ModulePlan,
};
use crate::error::{invalid_pattern, ErrorKind, GenerateError, GenerateErrorView};
use crate::filter::{
    all_portable, comment_filter_from_generate_flags, file_filter_from_file_flags,
    first_invalid_pattern, optional_text, path_accepted, portable, CommentFilter, PathFilter,
};
use crate::text::strings_view;
use crate::location::{locate_module, url_parses, ModuleLocation};

verus! {

/// What one run was asked to do. It is made once and never changed.
pub struct FilterConfig {
    /// Which modules take part.
    pub files: PathFilter,
    /// Which directives run.
    pub comments: CommentFilter,
    /// Whether each command is announced before it runs.
    pub verbose: bool,
    /// Whether commands are only announced and never spawned.
    pub dry_run: bool,
    /// Whether the exit status of each command is reported.
    pub trace: bool,
}

impl FilterConfig {
    /// Compiles the patterns: first the globs to match, then the globs to
    /// ignore, then `run`, then `skip`.
    ///
    /// Fails with `InvalidPattern`, naming the text, where one of them does
    /// not compile; nothing is scanned before that is known.
    pub fn new(
        includes: &Vec<String>,
        ignores: &Vec<String>,
        run: &Option<String>,
        skip: &Option<String>,
        verbose: bool,
        dry_run: bool,
        trace: bool,
    ) -> (r: Result<FilterConfig, GenerateError>)
        ensures
            match r {
                Ok(config) => {
                    &&& config.files@.includes == strings_view(includes@)
                    &&& config.files@.ignores == strings_view(ignores@)
                    &&& config.comments@.run == optional_text(*run)
                    &&& config.comments@.skip == optional_text(*skip)
                    &&& config.verbose == verbose
                    &&& config.dry_run == dry_run
                    &&& config.trace == trace
                },
                Err(e) => e@ == invalid_pattern(e@.subject),
            },
            includes.len() == 0 && ignores.len() == 0 && run is None && skip is None ==> r is Ok,
            all_portable(strings_view(includes@)) && all_portable(strings_view(ignores@))
                ==> match r {
                Ok(_) => first_invalid_pattern(
                    strings_view(includes@),
                    strings_view(ignores@),
                    optional_text(*run),
                    optional_text(*skip),
                ) is None,
                Err(e) => first_invalid_pattern(
                    strings_view(includes@),
                    strings_view(ignores@),
                    optional_text(*run),
                    optional_text(*skip),
                ) == Some(e@.subject),
            },
    {
        let files = match file_filter_from_file_flags(includes, ignores) {
            Ok(files) => files,
            Err(e) => {
                return Err(e);
            },
        };
        let comments = match comment_filter_from_generate_flags(run, skip) {
            Ok(comments) => comments,
            Err(e) => {
                return Err(e);
            },
        };
        Ok(FilterConfig { files, comments, verbose, dry_run, trace })
    }
}

/// The commands of a module whose place on disk is known, or `None` where the
/// module takes no part: it is no file, or the path filter leaves it out.
pub fn plan_located_module(
    module: &Module,
    location: &Option<ModuleLocation>,
    os: &str,
    config: &FilterConfig,
) -> (r: Option<ModulePlan>)
    ensures
        location is None ==> r is None,
        r matches Some(plan) ==> location is Some && plan@ == module_plan(
            module.source_text@,
            ModuleContext {
                os: os@,
                specifier: module.specifier@,
                dir: location->0.dir@,
                filter: config.comments@,
            },
        ),
        location is Some && all_portable(config.files@.includes) && all_portable(
            config.files@.ignores,
        ) && portable(location->0.path@) ==> (r is Some <==> path_accepted(
            config.files@,
            location->0.path@,
        )),
        location is Some && config.files@.includes.len() == 0 && config.files@.ignores.len() == 0
            ==> r is Some,
{
    match location {
        Some(place) => {
            if config.files.accepts(place.path.as_str()) {
                Some(collect_generate_commands(module, os, place.dir.as_str(), &config.comments))
            } else {
                None
            }
        },
        None => None,
    }
}

/// The commands of a module, or `None` where the module takes no part: it is
/// no file on disk, or the path filter leaves it out.
///
/// A module that is planned is named by a URL, its commands are those of its
/// text with the directory of its file, and the path of its file passed the
/// path filter.
pub fn plan_module(module: &Module, os: &str, config: &FilterConfig) -> (r: Option<ModulePlan>)
    ensures
        plans_module(r, *module, os@, *config),
{
    let location = locate_module(module.specifier.as_str());
    let plan = plan_located_module(module, &location, os, config);
    proof {
        if plan is Some {
            assert(planned_at(
                plan->0,
                *module,
                os@,
                *config,
                location->0.path@,
                location->0.dir@,
            ));
        }
    }
    plan
}

/// Whether `plan` holds the commands of the module as a file with the path
/// `path` in the directory `dir`: the commands are those of the module's text
/// with that directory, and the path filter takes the path.
pub open spec fn planned_at(
    plan: ModulePlan,
    module: Module,
    os: Seq<char>,
    config: FilterConfig,
    path: Seq<char>,
    dir: Seq<char>,
) -> bool {
    &&& plan@ == module_plan(
        module.source_text@,
        ModuleContext { os, specifier: module.specifier@, dir, filter: config.comments@ },
    )
    &&& all_portable(config.files@.includes) && all_portable(config.files@.ignores) && portable(
        path,
    ) ==> path_accepted(config.files@, path)
}

/// Whether `plan` is a plan of the module: where there is one, the module is
/// named by a URL and is planned as a file with some path in some directory.
pub open spec fn plans_module(
    plan: Option<ModulePlan>,
    module: Module,
    os: Seq<char>,
    config: FilterConfig,
) -> bool {
    plan matches Some(p) ==> url_parses(module.specifier@) && exists|
        path: Seq<char>,
        dir: Seq<char>,
    | planned_at(p, module, os, config, path, dir)
}

/// The plans of the modules, one for each and in their order; `None` stands
/// for a module that takes no part.
pub fn plan_modules(modules: &Vec<Module>, os: &str, config: &FilterConfig) -> (r: Vec<
    Option<ModulePlan>,
>)
    ensures
        r.len() == modules.len(),
        forall|i: int|
            0 <= i < modules.len() ==> plans_module(#[trigger] r@[i], modules@[i], os@, *config),
{
    let mut plans: Vec<Option<ModulePlan>> = Vec::new();
    let mut i: usize = 0;
    while i < modules.len()
        invariant
            i <= modules.len(),
            plans.len() == i,
            forall|k: int| 0 <= k < i ==> plans_module(#[trigger] plans@[k], modules@[k], os@, *config),
        decreases modules.len() - i,
    {
        let plan = plan_module(&modules[i], os, config);
        plans.push(plan);
        i += 1;
    }
    plans
}

/// What to do for a command before its process exists.
pub struct Step {
    /// The line to print first, if any.
    pub announcement: Option<String>,
    /// Whether to spawn the process.
    pub spawn: bool,
}

/// The line that announces a command of the module `specifier`.
pub open spec fn announcement(command: GenerateCommandView, specifier: Seq<char>) -> Seq<char> {
    "Running "@ + command.invocation.command_full() + " in <"@ + specifier + ">"@
}

/// Decides what happens before a command runs: it is announced where the run
/// is verbose, and spawned unless the run is a dry run.
pub fn begin_command(config: &FilterConfig, module: &Module, command: &GenerateCommand) -> (r: Step)
    ensures
        r.spawn == !config.dry_run,
        match r.announcement {
            Some(line) => config.verbose && line@ == announcement(command@, module.specifier@),
            None => !config.verbose,
        },
{
    let announcement = if config.verbose {
        let mut line = String::from_str("Running ");
        line.append(command.invocation.command_full().as_str());
        line.append(" in <");
        line.append(module.specifier.as_str());
        line.append(">");
        Some(line)
    } else {
        None
    };
    Step { announcement, spawn: !config.dry_run }
}

/// How the process of a command ended.
#[derive(Clone, Debug, PartialEq, Eq)]
pub enum ProcessEvent {
    /// It ran to its end.
    Exited {
        /// All that it wrote to its standard output.
        stdout: String,
        /// All that it wrote to its standard error.
        stderr: String,
        /// Its exit status, as text.
        status: String,
        /// Whether the status is a success.
        success: bool,
    },
    /// It could not be started.
    SpawnFailed,
}

/// Which failures end the whole run. By default none does.
#[derive(Clone, Copy, Debug, PartialEq, Eq)]
pub struct FailurePolicy {
    pub abort_on_spawn_failure: bool,
    pub abort_on_nonzero_exit: bool,
}

/// What to do once a command's process has ended.
pub struct Reaction {
    /// The lines to print, in order.
    pub lines: Vec<String>,
    /// The failure to record, if the command failed.
    pub error: Option<GenerateError>,
    /// Whether to go on with the next command.
    pub proceed: bool,
}

/// The lines that report a process: its output, its errors and, where the run
/// traces, its exit status. A process that did not start has none.
pub open spec fn report_lines(trace: bool, event: ProcessEvent) -> Seq<Seq<char>> {
    match event {
        ProcessEvent::Exited { stdout, stderr, status, success } => if trace {
            seq!["stdout: "@ + stdout@, "stderr: "@ + stderr@, "exit status "@ + status@]
        } else {
            seq!["stdout: "@ + stdout@, "stderr: "@ + stderr@]
        },
        ProcessEvent::SpawnFailed => Seq::empty(),
    }
}

/// The failure that a process stands for, if it stands for one.
pub open spec fn failure_kind(event: ProcessEvent) -> Option<ErrorKind> {
    match event {
        ProcessEvent::Exited { stdout, stderr, status, success } => if success {
            None
        } else {
            Some(ErrorKind::NonZeroExit)
        },
        ProcessEvent::SpawnFailed => Some(ErrorKind::SpawnFailure),
    }
}

/// Whether the run goes on after the process.
pub open spec fn goes_on(policy: FailurePolicy, event: ProcessEvent) -> bool {
    match failure_kind(event) {
        Some(ErrorKind::SpawnFailure) => !policy.abort_on_spawn_failure,
        Some(ErrorKind::NonZeroExit) => !policy.abort_on_nonzero_exit,
        _ => true,
    }
}

/// The error for a command of the module `specifier` that failed with `kind`.
pub open spec fn command_error(
    kind: ErrorKind,
    specifier: Seq<char>,
    command: GenerateCommandView,
) -> GenerateErrorView {
    GenerateErrorView {
        kind,
        specifier: Some(specifier),
        position: Some((command.line, command.character)),
        subject: command.invocation.program,
    }
}

impl FailurePolicy {
    /// The policy that reports every failure and goes on.
    pub fn report_and_continue() -> (r: FailurePolicy)
        ensures
            !r.abort_on_spawn_failure,
            !r.abort_on_nonzero_exit,
    {
        FailurePolicy { abort_on_spawn_failure: false, abort_on_nonzero_exit: false }
    }
}

/// Decides what happens after a command's process: its captured output is
/// always reported, its exit status where the run traces; a process that
/// failed is recorded with its module and the place of its directive; the run
/// stops where the policy says so.
pub fn finish_command(
    config: &FilterConfig,
    policy: &FailurePolicy,
    module: &Module,
    command: &GenerateCommand,
    event: &ProcessEvent,
) -> (r: Reaction)
    ensures
        strings_view(r.lines@) == report_lines(config.trace, *event),
        r.proceed == goes_on(*policy, *event),
        match r.error {
            Some(e) => failure_kind(*event) is Some && e@ == command_error(
                failure_kind(*event)->0,
                module.specifier@,
                command@,
            ),
            None => failure_kind(*event) is None,
        },
{
    let mut lines: Vec<String> = Vec::new();
    let kind = match event {
        ProcessEvent::Exited { stdout, stderr, status, success } => {
            let mut out = String::from_str("stdout: ");
            out.append(stdout.as_str());
            lines.push(out);
            let mut err = String::from_str("stderr: ");
            err.append(stderr.as_str());
            lines.push(err);
            if config.trace {
                let mut exit = String::from_str("exit status ");
                exit.append(status.as_str());
                lines.push(exit);
            }
            if *success {
                None
            } else {
                Some(ErrorKind::NonZeroExit)
            }
        },
        ProcessEvent::SpawnFailed => Some(ErrorKind::SpawnFailure),
    };
    assert(strings_view(lines@) =~= report_lines(config.trace, *event));
    let proceed = match kind {
        Some(ErrorKind::SpawnFailure) => !policy.abort_on_spawn_failure,
        Some(ErrorKind::NonZeroExit) => !policy.abort_on_nonzero_exit,
        _ => true,
    };
    let error = match kind {
        Some(k) => Some(
            GenerateError {
                kind: k,
                specifier: Some(module.specifier.clone()),
                position: Some((command.line, command.character)),
                subject: command.invocation.program.clone(),
            },
        ),
        None => None,
    };
    Reaction { lines, error, proceed }
}

} // verus!
