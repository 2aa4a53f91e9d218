//! Runs that an interceptor bounds by the number of commands.

use std::sync::{Arc, Mutex};

use brush::commands::{dispatch, Lookup};
use brush::error::{ErrorKind, IoError, IoErrorKind};
use brush::extensions::{
    CommandDecision, CommandInterceptor, DefaultErrorFormatter, ExecDecision, ShellExtensions,
};
use brush::outcome::{contain, recover, ExecutionExitCode, ListRun};
use brush::shell::{Shell, ShellContext};

/// Allows the first `budget` command dispatches and denies every one after that.
#[derive(Clone, Default)]
struct BudgetInterceptor {
    seen: Arc<Mutex<usize>>,
    budget: usize,
    /// When set, only this command name is ever denied.
    deny_only: Option<Arc<str>>,
}

impl BudgetInterceptor {
    fn new(budget: usize) -> Self {
        Self {
            seen: Arc::new(Mutex::new(0)),
            budget,
            deny_only: None,
        }
    }

    fn deny_only(mut self, name: &str) -> Self {
        self.deny_only = Some(Arc::from(name));
        self
    }

    fn seen(&self) -> usize {
        *self.seen.lock().unwrap()
    }
}

impl CommandInterceptor for BudgetInterceptor {
    fn before_command(&self, name: &str) -> CommandDecision {
        let mut count = self.seen.lock().unwrap();
        let seen = *count;
        *count += 1;

        if let Some(target) = self.deny_only.as_deref() {
            if name != target {
                return CommandDecision::Allow;
            }
        }

        if seen < self.budget {
            CommandDecision::Allow
        } else {
            CommandDecision::Deny(format!("command budget of {} exhausted", self.budget))
        }
    }
}

#[derive(Clone, Default)]
struct BudgetExtensions;

impl ShellExtensions for BudgetExtensions {
    type ErrorFormatter = DefaultErrorFormatter;
    type CommandInterceptor = BudgetInterceptor;
}

/// Denies at the external spawn only.
#[derive(Clone, Default)]
struct ExecOnlyInterceptor {
    seen: Arc<Mutex<usize>>,
}

impl CommandInterceptor for ExecOnlyInterceptor {
    fn before_exec(&self, _program: &str, _args: &[String]) -> ExecDecision {
        *self.seen.lock().unwrap() += 1;
        ExecDecision::Deny("denied by policy".to_string())
    }
}

#[derive(Clone, Default)]
struct ExecOnlyExtensions;

impl ShellExtensions for ExecOnlyExtensions {
    type ErrorFormatter = DefaultErrorFormatter;
    type CommandInterceptor = ExecOnlyInterceptor;
}

fn shell_with<SE: ShellExtensions<ErrorFormatter = DefaultErrorFormatter>>(
    interceptor: SE::CommandInterceptor,
) -> Shell<SE> {
    Shell::new(
        ShellContext { is_subshell: false },
        DefaultErrorFormatter,
        interceptor,
    )
}

/// Dispatches a builtin that exits with `code`.
fn builtin<SE: ShellExtensions>(
    shell: &Shell<SE>,
    name: &str,
    code: u8,
) -> Result<ExecutionExitCode, ErrorKind> {
    dispatch(shell, name, Vec::new(), Lookup::Builtin).map(|_| ExecutionExitCode::Custom(code))
}

/// `while true; do :; done`
fn spin(shell: &Shell<BudgetExtensions>) -> Result<ExecutionExitCode, ErrorKind> {
    let mut run = ListRun::start();
    loop {
        match recover(builtin(shell, "true", 0)) {
            Ok(code) if u8::from(code) == 0 => {}
            other => return other,
        }
        run = run.after(builtin(shell, ":", 0));
        if let ListRun::Ended(error) = run {
            return Err(error);
        }
    }
}

/// A loop made purely of builtins never spawns anything; only a denial before a command stops it.
#[test]
fn deny_stops_a_pure_builtin_infinite_loop() {
    let interceptor = BudgetInterceptor::new(100).deny_only(":");
    let probe = interceptor.clone();

    let outcome = spin(&shell_with(interceptor));

    assert!(
        matches!(outcome, Err(ErrorKind::CommandDenied(..))),
        "a `before_command` denial must end the loop. Got: {outcome:?}"
    );
    assert!(
        probe.seen() > 100,
        "expected the loop to run through its budget; saw {} dispatches",
        probe.seen()
    );
}

/// The denial escapes the subshell boundary, which contains other errors.
#[test]
fn deny_stops_a_runaway_inside_a_subshell() {
    let interceptor = BudgetInterceptor::new(100).deny_only(":");
    let shell: Shell<BudgetExtensions> = shell_with(interceptor);

    let outcome = contain(spin(&shell.clone()));

    assert!(
        matches!(outcome, Err(ErrorKind::CommandDenied(..))),
        "a terminating denial must escape the subshell boundary. Got: {outcome:?}"
    );
}

/// Ten iterations of `:` and the condition eleven times.
#[test]
fn hook_fires_once_per_builtin_dispatch_including_each_iteration() {
    let interceptor = BudgetInterceptor::new(usize::MAX);
    let probe = interceptor.clone();
    let shell: Shell<BudgetExtensions> = shell_with(interceptor);

    let mut run = ListRun::start();
    let mut x = 0;
    loop {
        let condition = u8::from(x >= 10);
        if builtin(&shell, "[", condition) != Ok(ExecutionExitCode::Custom(0)) {
            break;
        }
        x += 1;
        run = run.after(builtin(&shell, ":", 0));
    }

    assert!(matches!(run, ListRun::Going(code) if u8::from(code) == 0));
    assert!(
        probe.seen() >= 21,
        "expected at least 21 dispatches (11 conditions + 10 bodies); saw {}",
        probe.seen()
    );
}

/// A denied exec is a per-command failure that the enclosing loop continues past.
#[test]
fn before_exec_denial_remains_a_recoverable_per_command_failure() {
    let interceptor = ExecOnlyInterceptor::default();
    let probe = interceptor.clone();
    let shell: Shell<ExecOnlyExtensions> = shell_with(interceptor);

    let mut run = ListRun::start();
    for _ in [1, 2, 3, 4, 5] {
        let outcome = dispatch(&shell, "/bin/rm", Vec::new(), Lookup::NotFound);
        run = run.after(outcome.map(|_| ExecutionExitCode::Success));
    }

    assert!(
        matches!(run, ListRun::Going(code) if u8::from(code) == 126),
        "a denied exec should still report `cannot execute`"
    );
    assert_eq!(
        *probe.seen.lock().unwrap(),
        5,
        "every iteration should still have been attempted"
    );
}

#[test]
fn denied_commands_name_the_command_and_the_reason() {
    let shell: Shell<BudgetExtensions> = shell_with(BudgetInterceptor::new(0));
    assert_eq!(
        dispatch(&shell, "/bin/ls", Vec::new(), Lookup::NotFound),
        Err(ErrorKind::CommandDenied(
            "/bin/ls".to_string(),
            "command budget of 0 exhausted".to_string()
        ))
    );
}

#[test]
fn ended_lists_stay_ended() {
    let denial = || ErrorKind::CommandDenied("x".to_string(), "no".to_string());
    let run = ListRun::start()
        .after(Ok(ExecutionExitCode::Custom(3)))
        .after(Err(denial()))
        .after(Ok(ExecutionExitCode::Success));
    assert!(matches!(run, ListRun::Ended(error) if error == denial()));
}

#[test]
fn only_a_commands_own_failure_is_recovered() {
    let no = || "no".to_string();
    assert_eq!(
        recover(Err(ErrorKind::ExecDenied(no(), no()))),
        Ok(ExecutionExitCode::CannotExecute)
    );
    assert_eq!(
        recover(Err(ErrorKind::CommandNotFound(no()))),
        Ok(ExecutionExitCode::NotFound)
    );
    assert_eq!(
        recover(Ok(ExecutionExitCode::Custom(7))),
        Ok(ExecutionExitCode::Custom(7))
    );
    let io = || {
        ErrorKind::Io(IoError {
            kind: IoErrorKind::Other,
            text: no(),
        })
    };
    assert_eq!(recover(Err(io())), Err(io()));
    assert_eq!(
        recover(Err(ErrorKind::Unimplemented("x"))),
        Err(ErrorKind::Unimplemented("x"))
    );
    assert_eq!(
        recover(Err(ErrorKind::CommandDenied(no(), no()))),
        Err(ErrorKind::CommandDenied(no(), no()))
    );
}

#[test]
fn a_subshell_contains_every_error_but_a_denied_command() {
    let no = || "no".to_string();
    let io = ErrorKind::Io(IoError {
        kind: IoErrorKind::Other,
        text: no(),
    });
    assert_eq!(contain(Err(io)), Ok(ExecutionExitCode::GeneralError));
    assert_eq!(
        contain(Err(ErrorKind::Unimplemented("x"))),
        Ok(ExecutionExitCode::GeneralError)
    );
    assert_eq!(
        contain(Err(ErrorKind::ExecDenied(no(), no()))),
        Ok(ExecutionExitCode::CannotExecute)
    );
    assert_eq!(
        contain(Err(ErrorKind::CommandNotFound(no()))),
        Ok(ExecutionExitCode::NotFound)
    );
    assert_eq!(
        contain(Ok(ExecutionExitCode::Custom(7))),
        Ok(ExecutionExitCode::Custom(7))
    );
    assert_eq!(
        contain(recover(contain(Err(ErrorKind::CommandDenied(no(), no()))))),
        Err(ErrorKind::CommandDenied(no(), no()))
    );
}

#[test]
fn exit_codes_have_their_numbers() {
    assert_eq!(u8::from(ExecutionExitCode::Success), 0);
    assert_eq!(u8::from(ExecutionExitCode::GeneralError), 1);
    assert_eq!(u8::from(ExecutionExitCode::CannotExecute), 126);
    assert_eq!(u8::from(ExecutionExitCode::NotFound), 127);
    assert_eq!(u8::from(ExecutionExitCode::Custom(2)), 2);
}
