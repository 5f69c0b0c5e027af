use generate_directives::command::{collect_generate_commands, envs_from, Module};
use generate_directives::engine::{
    begin_command, finish_command, plan_located_module, plan_module, FailurePolicy, FilterConfig,
    ProcessEvent,
};
use generate_directives::error::ErrorKind;
use generate_directives::filter::comment_filter_from_generate_flags;
use generate_directives::location::{locate_module, ModuleLocation};
use generate_directives::parse_comments::parse_comments;
use generate_directives::text::{decimal_string, to_chars};

fn strings(items: &[&str]) -> Vec<String> {
    items.iter().map(|s| s.to_string()).collect()
}

fn module(specifier: &str, source: &str) -> Module {
    Module { specifier: specifier.to_string(), source_text: source.to_string() }
}

fn config(verbose: bool, dry_run: bool, trace: bool) -> FilterConfig {
    FilterConfig::new(&vec![], &vec![], &None, &None, verbose, dry_run, trace).unwrap()
}

fn pair(name: &str, value: &str) -> (String, String) {
    (name.to_string(), value.to_string())
}

#[test]
fn decimal_numerals() {
    assert_eq!(decimal_string(0), "0");
    assert_eq!(decimal_string(7), "7");
    assert_eq!(decimal_string(10), "10");
    assert_eq!(decimal_string(1234567890), "1234567890");
    assert_eq!(decimal_string(usize::MAX), usize::MAX.to_string());
}

#[test]
fn characters_of_a_string() {
    assert_eq!(to_chars("aé日"), vec!['a', 'é', '日']);
    assert!(to_chars("").is_empty());
}

#[test]
fn environment_of_a_directive() {
    let m = module("file:///src/mod.ts", "x\n  //deno:generate echo");
    let comment = parse_comments(&m.source_text).comments.remove(0);
    let env = envs_from("linux", &m, "/src", &comment);
    assert_eq!(
        env,
        vec![
            pair("DENO_OS", "linux"),
            pair("DENO_MODULE", "file:///src/mod.ts"),
            pair("DENO_LINE", "2"),
            pair("DENO_CHARACTER", "3"),
            pair("DENO_DIR", "/src"),
            pair("DOLLAR", "$"),
        ]
    );
}

#[test]
fn alias_is_expanded_for_later_directives_only() {
    let m = module(
        "file:///a.ts",
        "//deno:generate cmd before\n//deno:generate cmd=echo hi\n//deno:generate cmd there\n",
    );
    let filter = comment_filter_from_generate_flags(&None, &None).unwrap();
    let plan = collect_generate_commands(&m, "linux", "/", &filter);
    assert_eq!(plan.failure, None);
    assert_eq!(plan.commands.len(), 2);
    assert_eq!(plan.commands[0].invocation.program, "cmd");
    assert_eq!(plan.commands[0].invocation.args, strings(&["before"]));
    assert_eq!(plan.commands[0].line, 1);
    assert_eq!(plan.commands[1].invocation.program, "echo");
    assert_eq!(plan.commands[1].invocation.args, strings(&["hi", "there"]));
    assert_eq!(plan.commands[1].line, 3);
    assert_eq!(plan.commands[1].character, 1);
    assert_eq!(plan.commands[1].invocation.env[2], pair("DENO_LINE", "3"));
}

#[test]
fn aliases_do_not_pass_to_another_module() {
    let filter = comment_filter_from_generate_flags(&None, &None).unwrap();
    let first = module("file:///a.ts", "//deno:generate b=make\n//deno:generate b x");
    let second = module("file:///b.ts", "//deno:generate b x");
    let first_plan = collect_generate_commands(&first, "linux", "/", &filter);
    let second_plan = collect_generate_commands(&second, "linux", "/", &filter);
    assert_eq!(first_plan.commands[0].invocation.program, "make");
    assert_eq!(second_plan.commands[0].invocation.program, "b");
}

#[test]
fn filter_leaves_directives_out_but_not_alias_definitions() {
    let filter = comment_filter_from_generate_flags(&Some("run".to_string()), &Some("skip".to_string())).unwrap();
    let m = module(
        "file:///a.ts",
        "//deno:generate t=tool\n//deno:generate t run\n//deno:generate t other\n//deno:generate t run skip\n",
    );
    let plan = collect_generate_commands(&m, "linux", "/", &filter);
    assert_eq!(plan.commands.len(), 1);
    assert_eq!(plan.commands[0].invocation.program, "tool");
    assert_eq!(plan.commands[0].invocation.args, strings(&["run"]));
    assert_eq!(plan.commands[0].line, 2);
}

#[test]
fn unterminated_quote_keeps_earlier_commands_and_names_the_place() {
    let filter = comment_filter_from_generate_flags(&None, &None).unwrap();
    let m = module("file:///a.ts", "//deno:generate one\n //deno:generate \"two\n//deno:generate three");
    let plan = collect_generate_commands(&m, "linux", "/", &filter);
    assert_eq!(plan.commands.len(), 1);
    assert_eq!(plan.commands[0].invocation.program, "one");
    let failure = plan.failure.unwrap();
    assert_eq!(failure.kind, ErrorKind::UnterminatedQuote);
    assert_eq!(failure.specifier, Some("file:///a.ts".to_string()));
    assert_eq!(failure.position, Some((2, 2)));
    assert_eq!(failure.subject, "");
}

#[test]
fn dry_run_announces_the_expanded_command_and_spawns_nothing() {
    let m = module("file:///src/mod.ts", "//deno:generate build=make -j4\n//deno:generate build extra\n");
    let cfg = config(true, true, false);
    let location = Some(ModuleLocation { path: "/src/mod.ts".to_string(), dir: "/src".to_string() });
    let plan = plan_located_module(&m, &location, "linux", &cfg).unwrap();
    assert_eq!(plan.failure, None);
    assert_eq!(plan.commands.len(), 1);
    assert_eq!(plan.commands[0].invocation.command_full(), "make -j4 extra");
    let mut lines = Vec::new();
    let mut spawned = 0;
    for command in plan.commands.iter() {
        let step = begin_command(&cfg, &m, command);
        if let Some(line) = step.announcement {
            lines.push(line);
        }
        if step.spawn {
            spawned += 1;
        }
    }
    assert_eq!(lines, vec!["Running make -j4 extra in <file:///src/mod.ts>".to_string()]);
    assert_eq!(spawned, 0);
}

#[test]
fn quiet_run_announces_nothing_and_spawns() {
    let m = module("file:///a.ts", "//deno:generate echo");
    let cfg = config(false, false, false);
    let filter = comment_filter_from_generate_flags(&None, &None).unwrap();
    let plan = collect_generate_commands(&m, "linux", "/", &filter);
    let step = begin_command(&cfg, &m, &plan.commands[0]);
    assert_eq!(step.announcement, None);
    assert!(step.spawn);
}

#[test]
fn module_that_is_no_file_takes_no_part() {
    let cfg = config(false, false, false);
    let m = module("https://example.com/mod.ts", "//deno:generate echo");
    assert!(plan_located_module(&m, &None, "linux", &cfg).is_none());
    assert!(plan_module(&m, "linux", &cfg).is_none());
    assert!(locate_module("https://example.com/mod.ts").is_none());
    assert!(locate_module("not a url").is_none());
}

#[test]
fn file_module_is_planned_with_its_directory() {
    let cfg = config(false, false, false);
    let m = module("file:///src/mod.ts", "//deno:generate echo hi");
    let location = locate_module("file:///src/mod.ts").unwrap();
    assert!(location.path.ends_with("mod.ts"));
    assert!(location.path.starts_with(&location.dir));
    let plan = plan_module(&m, "linux", &cfg).unwrap();
    assert_eq!(plan.commands.len(), 1);
    assert_eq!(plan.commands[0].invocation.env[4], ("DENO_DIR".to_string(), location.dir));
}

#[test]
fn ignored_module_is_not_scanned() {
    let cfg =
        FilterConfig::new(&vec![], &strings(&["*.test.*"]), &None, &None, false, false, false).unwrap();
    let m = module("file:///src/a.test.ts", "//deno:generate echo 'unterminated");
    let ignored = Some(ModuleLocation { path: "/src/a.test.ts".to_string(), dir: "/src".to_string() });
    assert!(plan_located_module(&m, &ignored, "linux", &cfg).is_none());
    let taken = Some(ModuleLocation { path: "/src/a.ts".to_string(), dir: "/src".to_string() });
    assert!(plan_located_module(&m, &taken, "linux", &cfg).is_some());
}

#[test]
fn invalid_pattern_fails_the_configuration() {
    let glob = FilterConfig::new(&strings(&["a***"]), &vec![], &None, &None, false, false, false);
    assert_eq!(glob.err().unwrap().kind, ErrorKind::InvalidPattern);
    let regex = FilterConfig::new(&vec![], &vec![], &Some("(".to_string()), &None, false, false, false);
    let error = regex.err().unwrap();
    assert_eq!(error.kind, ErrorKind::InvalidPattern);
    assert_eq!(error.subject, "(");
}

fn planned(source: &str) -> (Module, generate_directives::command::GenerateCommand) {
    let m = module("file:///a.ts", source);
    let filter = comment_filter_from_generate_flags(&None, &None).unwrap();
    let mut plan = collect_generate_commands(&m, "linux", "/", &filter);
    (m, plan.commands.remove(0))
}

fn exited(success: bool) -> ProcessEvent {
    ProcessEvent::Exited {
        stdout: "out".to_string(),
        stderr: "err".to_string(),
        status: "exit status: 1".to_string(),
        success,
    }
}

#[test]
fn output_is_always_reported_and_status_when_tracing() {
    let (m, command) = planned("//deno:generate echo");
    let policy = FailurePolicy::report_and_continue();
    let quiet = finish_command(&config(false, false, false), &policy, &m, &command, &exited(true));
    assert_eq!(quiet.lines, strings(&["stdout: out", "stderr: err"]));
    assert_eq!(quiet.error, None);
    assert!(quiet.proceed);
    let traced = finish_command(&config(false, false, true), &policy, &m, &command, &exited(true));
    assert_eq!(traced.lines, strings(&["stdout: out", "stderr: err", "exit status exit status: 1"]));
}

#[test]
fn failing_exit_is_recorded_and_the_run_goes_on_by_default() {
    let (m, command) = planned("x\n  //deno:generate tool a");
    let policy = FailurePolicy::report_and_continue();
    let reaction = finish_command(&config(false, false, false), &policy, &m, &command, &exited(false));
    let error = reaction.error.unwrap();
    assert_eq!(error.kind, ErrorKind::NonZeroExit);
    assert_eq!(error.specifier, Some("file:///a.ts".to_string()));
    assert_eq!(error.position, Some((2, 3)));
    assert_eq!(error.subject, "tool");
    assert!(reaction.proceed);
    assert_eq!(reaction.lines.len(), 2);
}

#[test]
fn policy_decides_whether_a_failure_ends_the_run() {
    let (m, command) = planned("//deno:generate tool");
    let cfg = config(false, false, false);
    let strict = FailurePolicy { abort_on_spawn_failure: true, abort_on_nonzero_exit: true };
    assert!(!finish_command(&cfg, &strict, &m, &command, &exited(false)).proceed);
    assert!(finish_command(&cfg, &strict, &m, &command, &exited(true)).proceed);
    assert!(!finish_command(&cfg, &strict, &m, &command, &ProcessEvent::SpawnFailed).proceed);
    let spawn_only = FailurePolicy { abort_on_spawn_failure: true, abort_on_nonzero_exit: false };
    assert!(finish_command(&cfg, &spawn_only, &m, &command, &exited(false)).proceed);
    assert!(!finish_command(&cfg, &spawn_only, &m, &command, &ProcessEvent::SpawnFailed).proceed);
}

#[test]
fn spawn_failure_is_recorded_without_output() {
    let (m, command) = planned("//deno:generate missing-tool");
    let policy = FailurePolicy::report_and_continue();
    let reaction = finish_command(&config(false, false, true), &policy, &m, &command, &ProcessEvent::SpawnFailed);
    assert!(reaction.lines.is_empty());
    let error = reaction.error.unwrap();
    assert_eq!(error.kind, ErrorKind::SpawnFailure);
    assert_eq!(error.subject, "missing-tool");
    assert_eq!(error.position, Some((1, 1)));
    assert!(reaction.proceed);
}

#[test]
fn modules_are_planned_one_by_one_in_their_order() {
    let cfg = config(false, false, false);
    let modules = vec![
        module("file:///src/a.ts", "//deno:generate first"),
        module("https://example.com/b.ts", "//deno:generate remote"),
        module("file:///src/c.ts", "const x = 1;"),
        module("file:///src/d.ts", "//deno:generate last 'open"),
    ];
    let plans = generate_directives::engine::plan_modules(&modules, "linux", &cfg);
    assert_eq!(plans.len(), 4);
    assert_eq!(plans[0].as_ref().unwrap().commands[0].invocation.program, "first");
    assert!(plans[1].is_none());
    assert!(plans[2].as_ref().unwrap().commands.is_empty());
    let last = plans[3].as_ref().unwrap();
    assert!(last.commands.is_empty());
    assert_eq!(last.failure.as_ref().unwrap().kind, ErrorKind::UnterminatedQuote);
    assert_eq!(last.failure.as_ref().unwrap().specifier, Some("file:///src/d.ts".to_string()));
}
