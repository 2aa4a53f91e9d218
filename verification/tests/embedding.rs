//! Captured runs, their results, and the set-up of an embedded shell.

use brush::capture::{read_capture, Entry, Installation, Job, Step, Stream};
use brush::completed::{show, CompletedCommand};
use brush::settings::{cwd, BuiltinSet, LoadBehavior, ShellSettings, ShellVariable};
use brush::text::{to_decimal, to_readable};

fn result(stdout: &str, stderr: &str, exit_code: u8) -> CompletedCommand {
    CompletedCommand {
        stdout: stdout.to_string(),
        stderr: stderr.to_string(),
        exit_code,
    }
}

/// What a test host answers to the work it is asked for.
struct Host {
    exit_code: u8,
    out: Vec<u8>,
    err: Vec<u8>,
    /// The number of the piece of work that fails, if any.
    fails_at: Option<usize>,
}

impl Host {
    fn answer<T>(&self, number: usize, value: T) -> Result<T, String> {
        if self.fails_at == Some(number) {
            Err(format!("work {number} failed"))
        } else {
            Ok(value)
        }
    }

    /// Carries a run to its end and returns a record of the work, and the last step.
    fn drive(&self, first: Step) -> (Vec<String>, Step) {
        let mut step = first;
        let mut record = Vec::new();
        loop {
            let number = record.len();
            step = match step {
                Step::Prepare(preparing) => {
                    record.push(format!("{:?}", preparing.preparation()));
                    preparing.finish(self.answer(number, ()))
                }
                Step::Execute(job, executing) => {
                    record.push(format!("{job:?}"));
                    executing.finish(self.answer(number, self.exit_code))
                }
                Step::Restore(restoring) => {
                    record.push("restore".to_string());
                    restoring.finish()
                }
                Step::Read(reading) => {
                    let bytes = match reading.stream() {
                        Stream::Stdout => self.out.clone(),
                        Stream::Stderr => self.err.clone(),
                    };
                    record.push(format!("read {:?}", reading.stream()));
                    reading.finish(self.answer(number, bytes))
                }
                last => return (record, last),
            };
        }
    }
}

fn host(exit_code: u8, out: &[u8], err: &[u8]) -> Host {
    Host {
        exit_code,
        out: out.to_vec(),
        err: err.to_vec(),
        fails_at: None,
    }
}

#[test]
fn a_run_captures_both_streams() {
    let (record, last) = host(1, b"hello\n", b"oops\n").drive(Step::run("echo hello", false));
    assert_eq!(
        record,
        vec![
            "CreateFile(Stdout)",
            "CreateFile(Stderr)",
            "CloneHandle(Stdout, Stdout)",
            "CloneHandle(Stderr, Stderr)",
            "Run(\"echo hello\")",
            "read Stdout",
            "read Stderr",
        ]
    );
    assert_eq!(last, Step::Return(result("hello\n", "oops\n", 1)));
}

#[test]
fn a_combined_run_shares_one_file() {
    let (record, last) = host(0, b"out\nerr\n", b"unused").drive(Step::run_c("x", true));
    assert_eq!(
        record,
        vec![
            "CreateFile(Stdout)",
            "CreateFile(Stderr)",
            "CloneHandle(Stdout, Stdout)",
            "CloneHandle(Stdout, Stderr)",
            "RunC(\"x\")",
            "read Stdout",
        ]
    );
    assert_eq!(last, Step::Return(result("out\nerr\n", "", 0)));
}

#[test]
fn any_failure_is_raised_with_its_message() {
    for number in 0..7 {
        let mut failing = host(2, b"", b"");
        failing.fails_at = Some(number);
        let (record, last) = failing.drive(Step::run("x", false));
        assert_eq!(record.len(), number + 1);
        assert_eq!(last, Step::Raise(format!("work {number} failed")));
    }
}

#[test]
fn scripts_and_functions_take_optional_arguments() {
    let (record, last) = host(0, b"\xff", b"e").drive(Step::run_script(b"s".to_vec(), None));
    assert_eq!(
        record[4..],
        ["RunScript([115], [])", "restore", "read Stdout", "read Stderr"]
    );
    assert_eq!(last, Step::Return(result("\u{FFFD}", "e", 0)));

    let args = Some(vec!["loud".to_string()]);
    let (record, last) = host(0, b"LOUD\n", b"").drive(Step::call_function("shout", args, true));
    assert_eq!(record[4], "CallFunction(\"shout\", [\"loud\"])");
    assert_eq!(last, Step::Return(result("LOUD\n", "", 0)));
}

#[test]
fn a_script_that_cannot_be_run_gives_the_table_back_first() {
    let mut failing = host(0, b"", b"");
    failing.fails_at = Some(4);
    let (record, last) = failing.drive(Step::run_script(b"s".to_vec(), None));
    assert_eq!(record[4..], ["RunScript([115], [])", "restore"]);
    assert_eq!(last, Step::Raise("work 4 failed".to_string()));

    let (record, last) = failing.drive(Step::run_c("x", false));
    assert_eq!(record[4..], ["RunC(\"x\")"]);
    assert_eq!(last, Step::Raise("work 4 failed".to_string()));
}

/// Runs a script on a table whose entries are named by numbers: the capture files are 10 and 20,
/// and `redirect` is what the script does to the table. Returns the table after the run.
fn table_after_script(table: [u32; 2], redirect: fn(&mut [u32; 2])) -> [u32; 2] {
    let files = [10, 20];
    let mut now = table;
    let mut step = Step::run_script(b"s".to_vec(), None);
    loop {
        step = match step {
            Step::Prepare(preparing) => preparing.finish(Ok(())),
            Step::Execute(_, executing) => {
                now = files;
                redirect(&mut now);
                executing.finish(Ok(0))
            }
            Step::Restore(restoring) => {
                for entry in &mut now {
                    let refers_to = match *entry {
                        10 => Entry::CaptureFile(Stream::Stdout),
                        20 => Entry::CaptureFile(Stream::Stderr),
                        _ => Entry::Other,
                    };
                    match refers_to.gives_way_to() {
                        Some(Stream::Stdout) => *entry = table[0],
                        Some(Stream::Stderr) => *entry = table[1],
                        None => {}
                    }
                }
                restoring.finish()
            }
            Step::Read(reading) => reading.finish(Ok(Vec::new())),
            _ => return now,
        };
    }
}

#[test]
fn a_script_gives_the_table_back() {
    assert_eq!(table_after_script([1, 2], |_| {}), [1, 2]);
}

#[test]
fn redirections_of_a_script_stay() {
    // exec >file
    assert_eq!(table_after_script([1, 2], |now| now[0] = 7), [7, 2]);
    // exec 2>file
    assert_eq!(table_after_script([1, 2], |now| now[1] = 7), [1, 7]);
    // exec 2>&1
    assert_eq!(table_after_script([1, 2], |now| now[1] = now[0]), [1, 1]);
    // exec >&2
    assert_eq!(table_after_script([1, 2], |now| now[0] = now[1]), [2, 2]);
    // exec >file 2>&1
    assert_eq!(table_after_script([1, 2], |now| *now = [7, 7]), [7, 7]);
}

#[test]
fn captured_text_is_returned_as_it_is() {
    let step = Step::run("x", true);
    let step = match step {
        Step::Prepare(p) => p.finish(Ok(())),
        other => other,
    };
    let step = match step {
        Step::Prepare(p) => p.finish(Ok(())),
        other => other,
    };
    let step = match step {
        Step::Prepare(p) => p.finish(Ok(())),
        other => other,
    };
    let step = match step {
        Step::Prepare(p) => p.finish(Ok(())),
        other => other,
    };
    let step = match step {
        Step::Execute(_, e) => e.finish(Ok(9)),
        other => other,
    };
    let step = match step {
        Step::Read(r) => r.captured("text".to_string()),
        other => other,
    };
    assert_eq!(step, Step::Return(result("text", "", 9)));
}

#[test]
fn jobs_know_where_their_files_go() {
    let x = || "x".to_string();
    assert_eq!(Job::Run(x()).installation(), Installation::ExecutionParams);
    assert_eq!(
        Job::CallFunction(x(), Vec::new()).installation(),
        Installation::ExecutionParams
    );
    assert_eq!(Job::RunC(x()).installation(), Installation::OpenFiles);
    assert!(Job::RunScript(Vec::new(), Vec::new()).restores());
    assert!(!Job::RunC(x()).restores());
    assert!(!Job::Run(x()).restores());
    assert!(!Job::CallFunction(x(), Vec::new()).restores());
    assert_eq!(
        Job::RunScript(Vec::new(), Vec::new()).installation(),
        Installation::OpenFiles
    );
}

#[test]
fn captured_bytes_become_readable() {
    assert_eq!(read_capture(b"caf\xc3\xa9".to_vec()), "caf\u{e9}");
    assert_eq!(read_capture(b"a\xffb".to_vec()), "a\u{FFFD}b");
    assert_eq!(to_readable(b""), "");
    assert_eq!(to_readable(b"\xf0\x9f\x90\x9a!"), "\u{1F41A}!");
}

#[test]
fn success_is_exit_code_zero() {
    assert!(result("", "", 0).success());
    assert!(result("", "", 0).__bool__());
    assert!(!result("", "", 1).success());
    assert!(!result("", "", 255).__bool__());
}

#[test]
fn results_are_shown_with_quoted_texts() {
    assert_eq!(
        result("a\"b\n", "", 127).__repr__(),
        "CompletedCommand(exit_code=127, stdout=\"a\\\"b\\n\", stderr=\"\")"
    );
    assert_eq!(
        show(0, "'a'", "'b'"),
        "CompletedCommand(exit_code=0, stdout='a', stderr='b')"
    );
}

#[test]
fn numbers_are_decimal() {
    for n in 0..=255 {
        assert_eq!(to_decimal(n), format!("{n}"));
    }
}

#[test]
fn settings_follow_the_arguments() {
    assert_eq!(
        ShellSettings::new(true, false, None),
        ShellSettings {
            builtins: BuiltinSet::BashMode,
            do_not_inherit_env: false,
            working_dir: None,
            profile: LoadBehavior::Skip,
            rc: LoadBehavior::Skip,
        }
    );
    let settings = ShellSettings::new(false, true, Some(b"/tmp".to_vec()));
    assert!(settings.do_not_inherit_env);
    assert_eq!(settings.working_dir, Some(b"/tmp".to_vec()));
    assert_eq!(settings.profile, LoadBehavior::LoadDefault);
    assert_eq!(settings.rc, LoadBehavior::LoadDefault);
}

#[test]
fn the_working_directory_is_readable() {
    assert_eq!(cwd(b"/tmp"), "/tmp");
    assert_eq!(cwd(b"/\xff"), "/\u{FFFD}");
}

#[test]
fn variables_are_exported_on_request() {
    assert_eq!(
        ShellVariable::setenv("bar", true),
        ShellVariable {
            value: "bar".to_string(),
            exported: true,
        }
    );
    assert!(!ShellVariable::setenv("bar", false).exported);
    let mut variable = ShellVariable::new("x");
    assert!(!variable.exported);
    variable.export();
    assert!(variable.exported);
    assert_eq!(variable.value, "x");
}
