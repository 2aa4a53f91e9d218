//! The decisions of the `exec` builtin.

use std::sync::{Arc, Mutex};

use brush::error::{ErrorKind, IoError, IoErrorKind};
use brush::exec::{launch_failure, ExecCommand, ExecStep, Launch};
use brush::extensions::{
    CommandInterceptor, DefaultCommandInterceptor, DefaultErrorFormatter, DefaultShellExtensions,
    ExecDecision, ShellExtensionsImpl,
};
use brush::outcome::ExecutionExitCode;
use brush::shell::{Shell, ShellContext};

fn texts(words: &[&str]) -> Vec<String> {
    words.iter().map(|w| (*w).to_string()).collect()
}

fn command(words: &[&str]) -> ExecCommand {
    ExecCommand {
        name_for_argv0: None,
        empty_environment: false,
        exec_as_login: false,
        args: texts(words),
    }
}

fn launch(program: &str, argv0: &str, args: &[&str]) -> Launch {
    Launch {
        program: program.as_bytes().to_vec(),
        argv0: argv0.to_string(),
        args: texts(args),
        empty_environment: false,
    }
}

/// Confines programs, refuses `/bin/rm`, and records what it was asked.
#[derive(Clone, Default)]
struct Confining {
    calls: Arc<Mutex<Vec<(String, Vec<String>)>>>,
}

impl CommandInterceptor for Confining {
    fn before_exec(&self, program: &str, args: &[String]) -> ExecDecision {
        self.calls
            .lock()
            .unwrap()
            .push((program.to_string(), args.to_vec()));
        if program == "/bin/rm" {
            ExecDecision::Deny("not permitted".to_string())
        } else {
            ExecDecision::Allow
        }
    }

    fn is_confined(&self) -> bool {
        true
    }
}

type ConfinedShell = Shell<ShellExtensionsImpl<DefaultErrorFormatter, Confining>>;

fn confined(interceptor: &Confining, is_subshell: bool) -> ConfinedShell {
    Shell::new(
        ShellContext { is_subshell },
        DefaultErrorFormatter,
        interceptor.clone(),
    )
}

fn unconfined(is_subshell: bool) -> Shell<DefaultShellExtensions> {
    Shell::new(
        ShellContext { is_subshell },
        DefaultErrorFormatter,
        DefaultCommandInterceptor,
    )
}

#[test]
fn without_arguments_redirections_are_applied() {
    assert_eq!(
        command(&[]).execute(&unconfined(false)),
        Ok(ExecStep::ApplyRedirections)
    );
    assert_eq!(
        command(&[]).execute(&unconfined(true)),
        Ok(ExecStep::ApplyRedirections)
    );
    let mut with_options = command(&[]);
    with_options.exec_as_login = true;
    assert_eq!(
        with_options.execute(&confined(&Confining::default(), true)),
        Ok(ExecStep::ApplyRedirections)
    );
}

#[test]
fn a_subshell_delegates() {
    assert_eq!(
        command(&["ls", "-l"]).execute(&unconfined(true)),
        Ok(ExecStep::Delegate(texts(&["ls", "-l"])))
    );
    assert_eq!(
        command(&["ls"]).execute(&confined(&Confining::default(), true)),
        Ok(ExecStep::Delegate(texts(&["ls"])))
    );
}

#[test]
fn a_subshell_supports_no_options() {
    let unsupported = || {
        Err(ErrorKind::Unimplemented(
            "exec with options in subshell not yet supported",
        ))
    };
    let mut exec = command(&["ls"]);
    exec.empty_environment = true;
    assert_eq!(exec.plan(true, false), unsupported());
    let mut exec = command(&["ls"]);
    exec.exec_as_login = true;
    assert_eq!(exec.plan(true, true), unsupported());
    let mut exec = command(&["ls"]);
    exec.name_for_argv0 = Some("name".to_string());
    assert_eq!(exec.execute(&unconfined(true)), unsupported());
}

#[test]
fn an_unconfined_shell_launches_as_written() {
    assert_eq!(
        command(&["ls", "-l", "x"]).execute(&unconfined(false)),
        Ok(ExecStep::Launch(launch("ls", "ls", &["-l", "x"])))
    );
}

#[test]
fn options_shape_the_launch() {
    let mut exec = command(&["sh"]);
    exec.exec_as_login = true;
    assert_eq!(exec.argv0(), "-sh");
    exec.name_for_argv0 = Some("bash".to_string());
    assert_eq!(exec.argv0(), "-bash");
    exec.exec_as_login = false;
    assert_eq!(exec.argv0(), "bash");
    exec.empty_environment = true;
    assert_eq!(
        exec.plan(false, false),
        Ok(ExecStep::Launch(Launch {
            program: b"sh".to_vec(),
            argv0: "bash".to_string(),
            args: Vec::new(),
            empty_environment: true,
        }))
    );
}

#[test]
fn a_confined_shell_launches_what_was_authorized() {
    let interceptor = Confining::default();
    let shell = confined(&interceptor, false);
    let exec = command(&["ls", "-l"]);
    assert_eq!(
        exec.execute(&shell),
        Ok(ExecStep::Resolve("ls".to_string()))
    );
    assert_eq!(
        exec.authorize(&shell, Some(b"/usr/bin/ls".to_vec())),
        Ok(launch("/usr/bin/ls", "ls", &["-l"]))
    );
    assert_eq!(
        *interceptor.calls.lock().unwrap(),
        vec![("/usr/bin/ls".to_string(), texts(&["-l"]))]
    );
}

#[test]
fn an_unresolved_program_is_authorized_as_written() {
    let interceptor = Confining::default();
    let shell = confined(&interceptor, false);
    assert_eq!(
        command(&["nowhere"]).authorize(&shell, None),
        Ok(launch("nowhere", "nowhere", &[]))
    );
    assert_eq!(
        *interceptor.calls.lock().unwrap(),
        vec![("nowhere".to_string(), Vec::new())]
    );
}

#[test]
fn a_refused_program_is_not_launched() {
    let shell = confined(&Confining::default(), false);
    assert_eq!(
        command(&["rm", "x"]).authorize(&shell, Some(b"/bin/rm".to_vec())),
        Err(ErrorKind::ExecDenied(
            "/bin/rm".to_string(),
            "not permitted".to_string()
        ))
    );
}

#[test]
fn only_permitted_programs_are_launched() {
    let refusal = || ErrorKind::ExecDenied("/x".to_string(), "no".to_string());
    let exec = command(&["x", "y"]);
    assert_eq!(
        exec.launch_permitted(b"/x".to_vec(), Ok(())),
        Ok(launch("/x", "x", &["y"]))
    );
    assert_eq!(
        exec.launch_permitted(b"/x".to_vec(), Err(refusal())),
        Err(refusal())
    );
}

#[test]
fn a_path_that_is_no_text_is_launched_to_the_byte() {
    let interceptor = Confining::default();
    let shell = confined(&interceptor, false);
    let launched = command(&["x"])
        .authorize(&shell, Some(b"/opt/\xfe/x".to_vec()))
        .unwrap();
    assert_eq!(launched.program, b"/opt/\xfe/x");
    assert_eq!(interceptor.calls.lock().unwrap()[0].0, "/opt/\u{FFFD}/x");
}

#[test]
fn the_request_holds_all_that_is_known() {
    let mut exec = command(&["ls", "-l"]);
    exec.exec_as_login = true;
    let request = exec.request(Some(b"/bin/ls".to_vec()));
    assert_eq!(request.name, "ls");
    assert_eq!(request.program, b"/bin/ls");
    assert_eq!(request.argv0, "-ls");
    assert_eq!(request.args, texts(&["-l"]));
    assert_eq!(exec.request(None).program, b"ls");
}

#[test]
fn a_missing_program_is_an_exit_code() {
    let error = |kind| IoError {
        kind,
        text: "why".to_string(),
    };
    assert_eq!(
        launch_failure(error(IoErrorKind::NotFound)),
        Ok(ExecutionExitCode::NotFound)
    );
    assert_eq!(
        launch_failure(error(IoErrorKind::PermissionDenied)),
        Err(ErrorKind::Io(error(IoErrorKind::PermissionDenied)))
    );
    assert_eq!(
        launch_failure(error(IoErrorKind::Other)),
        Err(ErrorKind::Io(error(IoErrorKind::Other)))
    );
}
