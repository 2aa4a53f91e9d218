//! Commands under an interceptor that denies programs by their basename.

use std::path::Path;
use std::sync::{Arc, Mutex};

use brush::commands::{
    authorize_execution, authorize_open, command_ruling, conclude, contains_path_separator,
    dispatch, exec_ruling, open_ruling, resolve_target, Dispatch, ExecRequest, Lookup,
};
use brush::error::{ErrorKind, IoError, IoErrorKind};
use brush::extensions::{
    CommandDecision, CommandInterceptor, DefaultCommandInterceptor, DefaultErrorFormatter,
    DefaultPlaceholder, DefaultShellExtensions, ErrorFormatter, ExecDecision, OpenDecision,
    PlaceholderBehavior, ShellExtensions, ShellExtensionsImpl,
};
use brush::outcome::{recover, ExecutionExitCode};
use brush::shell::{Shell, ShellContext};

/// Every `before_exec` consultation: the program, and its args without `argv[0]`.
type ExecCalls = Arc<Mutex<Vec<(String, Vec<String>)>>>;

/// Denies any program whose basename is in the deny list, and records every consultation.
#[derive(Clone, Default)]
struct PolicyInterceptor {
    denied: Arc<Vec<String>>,
    calls: ExecCalls,
}

impl PolicyInterceptor {
    fn denying(basenames: &[&str]) -> Self {
        Self {
            denied: Arc::new(basenames.iter().map(|s| (*s).to_string()).collect()),
            calls: Arc::new(Mutex::new(Vec::new())),
        }
    }

    fn calls(&self) -> Vec<(String, Vec<String>)> {
        self.calls.lock().unwrap().clone()
    }

    fn programs(&self) -> Vec<String> {
        self.calls().into_iter().map(|(p, _)| p).collect()
    }
}

impl CommandInterceptor for PolicyInterceptor {
    fn before_exec(&self, program: &str, args: &[String]) -> ExecDecision {
        self.calls
            .lock()
            .unwrap()
            .push((program.to_string(), args.to_vec()));

        // Match on the basename so `rm`, `/bin/rm` and `./rm` are all caught.
        let basename = Path::new(program)
            .file_name()
            .map_or_else(|| program.to_string(), |s| s.to_string_lossy().into_owned());

        if self.denied.iter().any(|d| d == &basename) {
            ExecDecision::Deny(format!("'{basename}' is not permitted by policy"))
        } else {
            ExecDecision::Allow
        }
    }
}

#[derive(Clone, Default)]
struct PolicyExtensions;

impl ShellExtensions for PolicyExtensions {
    type ErrorFormatter = DefaultErrorFormatter;
    type CommandInterceptor = PolicyInterceptor;
}

fn shell_with(interceptor: PolicyInterceptor) -> Shell<PolicyExtensions> {
    Shell::new(
        ShellContext { is_subshell: false },
        DefaultErrorFormatter,
        interceptor,
    )
}

/// Dispatches the words of `cmd`, with names found in `/bin`, and returns what would be spawned.
fn dispatch_words<SE: ShellExtensions>(
    shell: &Shell<SE>,
    cmd: &str,
) -> Result<Dispatch, ErrorKind> {
    let mut words = cmd.split_whitespace().map(str::to_string);
    let name = words.next().unwrap();
    let found = Lookup::Found(format!("/bin/{name}").into_bytes());
    dispatch(shell, &name, words.collect(), found)
}

/// The exit code of a command whose program, if it is spawned at all, succeeds.
fn run<SE: ShellExtensions>(shell: &Shell<SE>, cmd: &str) -> u8 {
    let outcome = dispatch_words(shell, cmd).map(|_| ExecutionExitCode::Success);
    u8::from(recover(outcome).unwrap())
}

/// A bare name, resolved through `PATH`.
#[test]
fn denies_bare_name_command() {
    let interceptor = PolicyInterceptor::denying(&["rm"]);
    let shell = shell_with(interceptor.clone());

    assert_ne!(run(&shell, "rm /tmp/does-not-matter"), 0);
    assert!(
        interceptor.programs().iter().any(|p| p.ends_with("rm")),
        "before_exec should have been consulted; saw: {:?}",
        interceptor.programs()
    );
}

/// The load-bearing case: an absolute path bypasses both `PATH` and the builtin table.
#[test]
fn denies_absolute_path_command() {
    let interceptor = PolicyInterceptor::denying(&["rm"]);
    let shell = shell_with(interceptor.clone());

    assert_ne!(run(&shell, "/bin/rm /tmp/does-not-matter"), 0);
    assert!(
        interceptor.programs().iter().any(|p| p == "/bin/rm"),
        "before_exec should have seen the path as written; saw: {:?}",
        interceptor.programs()
    );
}

/// The other path-separator spelling.
#[test]
fn denies_relative_path_command() {
    let interceptor = PolicyInterceptor::denying(&["rm"]);
    let shell = shell_with(interceptor.clone());

    assert_ne!(run(&shell, "./rm /tmp/does-not-matter"), 0);
    assert!(
        interceptor.programs().iter().any(|p| p == "./rm"),
        "before_exec should have seen the relative path; saw: {:?}",
        interceptor.programs()
    );
}

/// A denial prevents the spawn.
#[test]
fn denied_command_never_runs() {
    let interceptor = PolicyInterceptor::denying(&["touch"]);
    let shell = shell_with(interceptor);

    assert_ne!(run(&shell, "/usr/bin/touch marker"), 0);
    assert_eq!(
        dispatch_words(&shell, "/usr/bin/touch marker"),
        Err(ErrorKind::ExecDenied(
            "/usr/bin/touch".to_string(),
            "'touch' is not permitted by policy".to_string()
        ))
    );
}

/// A denial is reported as "cannot execute".
#[test]
fn denial_exits_with_126() {
    let interceptor = PolicyInterceptor::denying(&["rm"]);
    let shell = shell_with(interceptor);

    assert_eq!(run(&shell, "/bin/rm /tmp/does-not-matter"), 126);
}

/// A `PATH` lookup passes the *resolved* absolute path, and `args` excludes `argv[0]`.
#[test]
fn hook_sees_resolved_path_and_args_without_argv0() {
    let interceptor = PolicyInterceptor::denying(&[]);
    let shell = shell_with(interceptor.clone());

    assert_eq!(run(&shell, "true alpha beta"), 0);

    let calls = interceptor.calls();
    assert!(
        calls
            .iter()
            .any(|(p, _)| p.ends_with("true") && Path::new(p).is_absolute()),
        "a PATH-resolved command should reach the hook as an absolute path; saw: {calls:?}"
    );
    assert!(
        calls
            .iter()
            .any(|(p, args)| p.ends_with("true") && args.as_slice() == ["alpha", "beta"]),
        "args should be the arguments without argv[0]; saw: {calls:?}"
    );
}

/// A subshell reaches the same spawn funnel.
#[test]
fn denial_applies_in_subshell() {
    let interceptor = PolicyInterceptor::denying(&["rm"]);
    let shell: Shell<PolicyExtensions> = Shell::new(
        ShellContext { is_subshell: true },
        DefaultErrorFormatter,
        interceptor.clone(),
    );

    let _ = run(&shell, "/bin/rm /tmp/does-not-matter");
    assert!(
        interceptor.programs().iter().any(|p| p == "/bin/rm"),
        "a subshell must not bypass before_exec; saw: {:?}",
        interceptor.programs()
    );
}

/// A clone of the shell consults a clone of the interceptor, which shares its state.
#[test]
fn denial_applies_in_a_cloned_pipeline_stage() {
    let interceptor = PolicyInterceptor::denying(&["rm"]);
    let shell = shell_with(interceptor.clone());
    let stage = shell.clone();

    let _ = run(&stage, "/bin/rm /tmp/does-not-matter");
    let _ = run(&shell, "/usr/bin/true");
    assert!(
        interceptor.programs().iter().any(|p| p == "/bin/rm"),
        "the clone must share the original's state; saw: {:?}",
        interceptor.programs()
    );
    assert_eq!(stage.is_subshell(), shell.is_subshell());
}

/// A permitted command runs normally.
#[test]
fn allows_permitted_command() {
    let interceptor = PolicyInterceptor::denying(&["rm"]);
    let shell = shell_with(interceptor.clone());

    assert_eq!(run(&shell, "/usr/bin/true"), 0);
    assert!(
        interceptor.programs().iter().any(|p| p == "/usr/bin/true"),
        "before_exec should have been consulted; saw: {:?}",
        interceptor.programs()
    );
    assert_eq!(
        dispatch_words(&shell, "/usr/bin/true -x"),
        Ok(Dispatch::Spawn(
            b"/usr/bin/true".to_vec(),
            vec!["-x".to_string()]
        ))
    );
}

#[test]
fn paths_bypass_the_lookup() {
    let interceptor = PolicyInterceptor::denying(&[]);
    let shell = shell_with(interceptor.clone());
    let spawned = dispatch(&shell, "./x", Vec::new(), Lookup::Builtin);
    assert_eq!(spawned, Ok(Dispatch::Spawn(b"./x".to_vec(), Vec::new())));
    assert_eq!(interceptor.programs(), vec!["./x".to_string()]);

    assert!(matches!(resolve_target("a/b", Lookup::NotFound), Lookup::Found(p) if p == b"a/b"));
    assert!(matches!(resolve_target("ab", Lookup::NotFound), Lookup::NotFound));
    assert!(matches!(resolve_target("ab", Lookup::Builtin), Lookup::Builtin));
    assert!(contains_path_separator("a/b"));
    assert!(contains_path_separator("/"));
    assert!(!contains_path_separator("ab"));
    assert!(!contains_path_separator(""));
}

#[test]
fn builtins_and_missing_commands_reach_no_exec_hook() {
    let interceptor = PolicyInterceptor::denying(&["echo", "nope"]);
    let shell = shell_with(interceptor.clone());
    assert_eq!(
        dispatch(&shell, "echo", Vec::new(), Lookup::Builtin),
        Ok(Dispatch::Builtin)
    );
    let missing = dispatch(&shell, "nope", Vec::new(), Lookup::NotFound);
    assert_eq!(missing, Err(ErrorKind::CommandNotFound("nope".to_string())));
    assert_eq!(
        recover(missing.map(|_| ExecutionExitCode::Success)),
        Ok(ExecutionExitCode::NotFound)
    );
    assert!(interceptor.programs().is_empty());
}

#[test]
fn the_hook_sees_readable_text_and_the_spawn_keeps_the_bytes() {
    let interceptor = PolicyInterceptor::denying(&[]);
    let shell = shell_with(interceptor.clone());
    let path = b"/opt/\xff/x".to_vec();
    let spawned = dispatch(&shell, "x", Vec::new(), Lookup::Found(path.clone()));
    assert_eq!(spawned, Ok(Dispatch::Spawn(path, Vec::new())));
    assert_eq!(interceptor.programs(), vec!["/opt/\u{FFFD}/x".to_string()]);
}

#[test]
fn authorization_follows_the_interceptor() {
    let interceptor = PolicyInterceptor::denying(&["rm"]);
    let shell = shell_with(interceptor.clone());
    let request = |program: &str| ExecRequest {
        name: "x".to_string(),
        program: program.as_bytes().to_vec(),
        argv0: "x".to_string(),
        args: vec!["-f".to_string()],
    };
    assert_eq!(authorize_execution(&shell, &request("/bin/ls")), Ok(()));
    assert_eq!(
        authorize_execution(&shell, &request("/bin/rm")),
        Err(ErrorKind::ExecDenied(
            "/bin/rm".to_string(),
            "'rm' is not permitted by policy".to_string()
        ))
    );
    assert_eq!(
        interceptor.calls()[1],
        ("/bin/rm".to_string(), vec!["-f".to_string()])
    );
}

#[test]
fn a_spawn_needs_both_permissions() {
    let denied = || ErrorKind::CommandDenied("x".to_string(), "late".to_string());
    let refused = || ErrorKind::ExecDenied("/x".to_string(), "no".to_string());
    let found = || Lookup::Found(b"/x".to_vec());
    assert_eq!(
        conclude("x", Vec::new(), found(), Ok(()), Ok(())),
        Ok(Dispatch::Spawn(b"/x".to_vec(), Vec::new()))
    );
    assert_eq!(
        conclude("x", Vec::new(), found(), Ok(()), Err(refused())),
        Err(refused())
    );
    assert_eq!(
        conclude("x", Vec::new(), found(), Err(denied()), Ok(())),
        Err(denied())
    );
    assert_eq!(
        conclude("x", Vec::new(), Lookup::Builtin, Err(denied()), Ok(())),
        Err(denied())
    );
    assert_eq!(
        conclude("x", Vec::new(), Lookup::Builtin, Ok(()), Err(refused())),
        Ok(Dispatch::Builtin)
    );
    assert_eq!(
        conclude("x", Vec::new(), Lookup::NotFound, Ok(()), Ok(())),
        Err(ErrorKind::CommandNotFound("x".to_string()))
    );
}

#[test]
fn rulings_carry_the_reason() {
    assert_eq!(command_ruling("x", CommandDecision::Allow), Ok(()));
    assert_eq!(
        command_ruling("x", CommandDecision::Deny("late".to_string())),
        Err(ErrorKind::CommandDenied("x".to_string(), "late".to_string()))
    );
    assert_eq!(exec_ruling("x".to_string(), ExecDecision::Allow), Ok(()));
    assert_eq!(
        exec_ruling("x".to_string(), ExecDecision::Deny("no".to_string())),
        Err(ErrorKind::ExecDenied("x".to_string(), "no".to_string()))
    );
    assert_eq!(open_ruling(OpenDecision::Allow), Ok(()));
    assert_eq!(
        open_ruling(OpenDecision::Deny("no".to_string())),
        Err(ErrorKind::Io(IoError {
            kind: IoErrorKind::PermissionDenied,
            text: "no".to_string()
        }))
    );
}

/// Allows writing under `/tmp/ok/` alone, and reading anywhere.
#[derive(Clone, Default)]
struct OpenInterceptor;

impl CommandInterceptor for OpenInterceptor {
    fn before_open(&self, path: &[u8], write: bool) -> OpenDecision {
        if write && !path.starts_with(b"/tmp/ok/") {
            OpenDecision::Deny("outside the allowed directory".to_string())
        } else {
            OpenDecision::Allow
        }
    }
}

#[test]
fn openings_follow_the_interceptor() {
    let shell: Shell<ShellExtensionsImpl<DefaultErrorFormatter, OpenInterceptor>> = Shell::new(
        ShellContext { is_subshell: false },
        DefaultErrorFormatter,
        OpenInterceptor,
    );
    assert_eq!(authorize_open(&shell, b"/tmp/ok/file", true), Ok(()));
    assert_eq!(authorize_open(&shell, b"/etc/profile", false), Ok(()));
    assert_eq!(
        authorize_open(&shell, b"/tmp/bad", true),
        Err(ErrorKind::Io(IoError {
            kind: IoErrorKind::PermissionDenied,
            text: "outside the allowed directory".to_string()
        }))
    );
}

#[test]
fn defaults_allow_everything() {
    let interceptor = DefaultCommandInterceptor::default();
    assert_eq!(interceptor.before_command("rm"), CommandDecision::Allow);
    assert_eq!(
        interceptor.before_exec("/bin/rm", &["-rf".to_string()]),
        ExecDecision::Allow
    );
    assert_eq!(interceptor.before_open(b"/", true), OpenDecision::Allow);
    assert!(!interceptor.is_confined());

    let shell: Shell<DefaultShellExtensions> = Shell::new(
        ShellContext { is_subshell: false },
        DefaultErrorFormatter::default(),
        interceptor,
    );
    assert_eq!(
        dispatch_words(&shell, "rm -rf x"),
        Ok(Dispatch::Spawn(
            b"/bin/rm".to_vec(),
            vec!["-rf".to_string(), "x".to_string()]
        ))
    );
    let _ = ShellExtensionsImpl::<DefaultErrorFormatter, DefaultCommandInterceptor>::default()
        .clone();
}

fn placeholder<T: PlaceholderBehavior>(value: T) -> T {
    value.clone()
}

#[test]
fn decisions_and_placeholders_are_cloned() {
    assert_eq!(placeholder(DefaultPlaceholder::default()), DefaultPlaceholder);
    let denial = ExecDecision::Deny("no".to_string());
    assert_eq!(denial.clone(), denial);
    assert_ne!(denial, ExecDecision::Allow);
    let denial = CommandDecision::Deny("no".to_string());
    assert_eq!(denial.clone(), denial);
    let denial = OpenDecision::Deny("no".to_string());
    assert_eq!(denial.clone(), denial);
}

#[derive(Clone, Default)]
struct TerseFormatter;

impl ErrorFormatter for TerseFormatter {
    fn format_error(&self, error: &str, shell: &ShellContext) -> String {
        format!("{error} (subshell: {})", shell.is_subshell)
    }
}

#[test]
fn errors_are_displayed_by_the_formatter() {
    let shell: Shell<DefaultShellExtensions> = Shell::new(
        ShellContext { is_subshell: false },
        DefaultErrorFormatter,
        DefaultCommandInterceptor,
    );
    assert_eq!(shell.format_error("boom"), "error: boom\n");
    assert_eq!(shell.format_error(""), "error: \n");

    let shell: Shell<ShellExtensionsImpl<TerseFormatter>> = Shell::new(
        ShellContext { is_subshell: true },
        TerseFormatter,
        DefaultCommandInterceptor,
    );
    assert_eq!(shell.format_error("boom"), "boom (subshell: true)");
}
