//! Running shell code with its output captured in temporary files.
//!
//! The host does the work on files and shells and reports how it went; what is done next, and
//! what comes out in the end, is decided here.

use vstd::prelude::*;
use vstd::utf8::{encode_utf8, valid_utf8};
use crate::completed::{CompletedCommand, CompletedCommandView};
use crate::text::{
    lossy_text, readable, readable_forms_stand_for_their_bytes, texts_of_a_copy, to_readable,
    REPLACEMENT,
};

verus! {

/// One of the two captured streams.
#[derive(Clone, Copy, Debug, PartialEq, Eq, Structural)]
pub enum Stream {
    /// The standard output.
    Stdout,
    /// The standard error.
    Stderr,
}

/// Where the handles of the capture files are put for the time of a run.
#[derive(Clone, Copy, Debug, PartialEq, Eq, Structural)]
pub enum Installation {
    /// Among the parameters of this one execution.
    ExecutionParams,
    /// In the shell's own table of open files.
    OpenFiles,
}

/// What the shell is asked to run.
#[derive(Debug, PartialEq, Eq)]
pub enum Job {
    /// A command string, without exit handling.
    Run(String),
    /// A command string, followed by exit handling.
    RunC(String),
    /// The script at this path with these arguments, followed by exit handling.
    RunScript(Vec<u8>, Vec<String>),
    /// The shell function of this name with these arguments.
    CallFunction(String, Vec<String>),
}

/// A [`Job`] with its contents as sequences.
pub enum JobView {
    Run(Seq<char>),
    RunC(Seq<char>),
    RunScript(Seq<u8>, Seq<Seq<char>>),
    CallFunction(Seq<char>, Seq<Seq<char>>),
}

impl View for Job {
    type V = JobView;

    open spec fn view(&self) -> JobView {
        match *self {
            Job::Run(command) => JobView::Run(command@),
            Job::RunC(command) => JobView::RunC(command@),
            Job::RunScript(path, args) => JobView::RunScript(path@, args.deep_view()),
            Job::CallFunction(name, args) => JobView::CallFunction(name@, args.deep_view()),
        }
    }
}

impl JobView {
    /// Where this job finds its capture files: those ways of running code that take
    /// parameters get them there, the others inherit them from the shell.
    pub open spec fn installation(self) -> Installation {
        match self {
            JobView::Run(_) => Installation::ExecutionParams,
            JobView::CallFunction(_, _) => Installation::ExecutionParams,
            JobView::RunC(_) => Installation::OpenFiles,
            JobView::RunScript(_, _) => Installation::OpenFiles,
        }
    }

    /// Whether the shell's table is rid of the capture files after this job: a script is
    /// captured for the duration of its run.
    pub open spec fn restores(self) -> bool {
        self is RunScript
    }
}

impl Job {
    /// Where this job finds its capture files. See [`JobView::installation`].
    pub fn installation(&self) -> (res: Installation)
        ensures
            res == self@.installation(),
    {
        match self {
            Job::Run(_) => Installation::ExecutionParams,
            Job::CallFunction(_, _) => Installation::ExecutionParams,
            Job::RunC(_) => Installation::OpenFiles,
            Job::RunScript(_, _) => Installation::OpenFiles,
        }
    }

    /// Whether the shell's table is rid of the capture files after this job. See
    /// [`JobView::restores`].
    pub fn restores(&self) -> (res: bool)
        ensures
            res == self@.restores(),
    {
        matches!(self, Job::RunScript(_, _))
    }
}

/// One of the preparations for a run.
#[derive(Clone, Copy, Debug, PartialEq, Eq, Structural)]
pub enum Preparation {
    /// Create the capture file of this stream.
    CreateFile(Stream),
    /// Clone the handle of the first stream's file, to be installed as the second stream.
    CloneHandle(Stream, Stream),
}

/// The preparations in their order.
#[derive(Clone, Copy, Debug, PartialEq, Eq, Structural)]
pub enum Stage {
    /// The file for the standard output is created.
    CreatingStdout,
    /// The file for the standard error is created.
    CreatingStderr,
    /// The handle to install as standard output is cloned.
    CloningStdout,
    /// The handle to install as standard error is cloned.
    CloningStderr,
}

/// A run that is being prepared.
#[derive(Debug, PartialEq, Eq)]
pub struct Preparing {
    stage: Stage,
    job: Job,
    combine_stderr: bool,
}

/// A [`Preparing`] with its job as sequences.
pub struct PreparingView {
    pub stage: Stage,
    pub job: JobView,
    pub combine_stderr: bool,
}

impl View for Preparing {
    type V = PreparingView;

    closed spec fn view(&self) -> PreparingView {
        PreparingView {
            stage: self.stage,
            job: self.job@,
            combine_stderr: self.combine_stderr,
        }
    }
}

/// A run whose job is under way.
#[derive(Debug, PartialEq, Eq)]
pub struct Executing {
    combine_stderr: bool,
    restores: bool,
}

/// An [`Executing`] laid open.
pub struct ExecutingView {
    pub combine_stderr: bool,
    pub restores: bool,
}

impl View for Executing {
    type V = ExecutingView;

    closed spec fn view(&self) -> ExecutingView {
        ExecutingView { combine_stderr: self.combine_stderr, restores: self.restores }
    }
}

/// What an entry of the shell's table of open files refers to once the job is over.
#[derive(Clone, Copy, Debug, PartialEq, Eq, Structural)]
pub enum Entry {
    /// The capture file of this stream.
    CaptureFile(Stream),
    /// Anything else; the job has redirected the entry.
    Other,
}

impl Entry {
    /// The stream whose replaced entry takes the place of this one. A capture file gives way
    /// to what it was installed in place of; what the job has put there itself stays.
    pub open spec fn spec_gives_way_to(self) -> Option<Stream> {
        match self {
            Entry::CaptureFile(stream) => Some(stream),
            Entry::Other => None,
        }
    }

    /// The stream whose replaced entry takes the place of this one, if any. See
    /// [`Entry::spec_gives_way_to`].
    pub fn gives_way_to(self) -> (res: Option<Stream>)
        ensures
            res == self.spec_gives_way_to(),
    {
        match self {
            Entry::CaptureFile(stream) => Some(stream),
            Entry::Other => None,
        }
    }
}

/// A run whose job is over, while the shell's table is being rid of the capture files.
#[derive(Debug, PartialEq, Eq)]
pub struct Restoring {
    combine_stderr: bool,
    outcome: Result<u8, String>,
}

/// A [`Restoring`] with its message as characters. The outcome is the exit code of the job or
/// the message of the failure to run it.
pub struct RestoringView {
    pub combine_stderr: bool,
    pub outcome: Result<u8, Seq<char>>,
}

impl View for Restoring {
    type V = RestoringView;

    closed spec fn view(&self) -> RestoringView {
        RestoringView {
            combine_stderr: self.combine_stderr,
            outcome: match self.outcome {
                Ok(exit_code) => Ok(exit_code),
                Err(message) => Err(message@),
            },
        }
    }
}

/// A run whose output is being read back.
#[derive(Debug, PartialEq, Eq)]
pub struct Reading {
    combine_stderr: bool,
    stdout: Option<String>,
    exit_code: u8,
}

/// A [`Reading`] with its text as characters. The standard output is absent until it was read.
pub struct ReadingView {
    pub combine_stderr: bool,
    pub stdout: Option<Seq<char>>,
    pub exit_code: u8,
}

impl View for Reading {
    type V = ReadingView;

    closed spec fn view(&self) -> ReadingView {
        ReadingView {
            combine_stderr: self.combine_stderr,
            stdout: self.stdout.deep_view(),
            exit_code: self.exit_code,
        }
    }
}

/// What the host does next, and what is to be told how it went.
#[derive(Debug, PartialEq, Eq)]
pub enum Step {
    /// Do the preparation.
    Prepare(Preparing),
    /// Install the cloned handles and run the job.
    Execute(Job, Executing),
    /// Put back into the shell's table what the capture files have replaced, as each entry's
    /// [`Entry::gives_way_to`] tells. A redirection that the job has made of its own stays.
    Restore(Restoring),
    /// Read back a whole capture file.
    Read(Reading),
    /// Hand this result to the caller.
    Return(CompletedCommand),
    /// Raise an exception with this message.
    Raise(String),
}

/// A [`Step`] with its contents as sequences.
pub enum StepView {
    Prepare(PreparingView),
    Execute(JobView, ExecutingView),
    Restore(RestoringView),
    Read(ReadingView),
    Return(CompletedCommandView),
    Raise(Seq<char>),
}

impl View for Step {
    type V = StepView;

    open spec fn view(&self) -> StepView {
        match *self {
            Step::Prepare(preparing) => StepView::Prepare(preparing@),
            Step::Execute(job, executing) => StepView::Execute(job@, executing@),
            Step::Restore(restoring) => StepView::Restore(restoring@),
            Step::Read(reading) => StepView::Read(reading@),
            Step::Return(result) => StepView::Return(result@),
            Step::Raise(message) => StepView::Raise(message@),
        }
    }
}

impl PreparingView {
    /// The preparation that is due: two files, then two handles, where a combined standard
    /// error shares the file of the standard output.
    pub open spec fn preparation(self) -> Preparation {
        match self.stage {
            Stage::CreatingStdout => Preparation::CreateFile(Stream::Stdout),
            Stage::CreatingStderr => Preparation::CreateFile(Stream::Stderr),
            Stage::CloningStdout => Preparation::CloneHandle(Stream::Stdout, Stream::Stdout),
            Stage::CloningStderr => Preparation::CloneHandle(
                if self.combine_stderr {
                    Stream::Stdout
                } else {
                    Stream::Stderr
                },
                Stream::Stderr,
            ),
        }
    }

    /// What follows the preparation: the next one or, after the last, the job.
    pub open spec fn done(self) -> StepView {
        match self.stage {
            Stage::CreatingStdout => StepView::Prepare(
                PreparingView { stage: Stage::CreatingStderr, ..self },
            ),
            Stage::CreatingStderr => StepView::Prepare(
                PreparingView { stage: Stage::CloningStdout, ..self },
            ),
            Stage::CloningStdout => StepView::Prepare(
                PreparingView { stage: Stage::CloningStderr, ..self },
            ),
            Stage::CloningStderr => StepView::Execute(
                self.job,
                ExecutingView {
                    combine_stderr: self.combine_stderr,
                    restores: self.job.restores(),
                },
            ),
        }
    }
}

impl RestoringView {
    /// What follows once the shell's table is as the job is to leave it: the standard output
    /// is read back or, where the job could not be run, the failure is raised.
    pub open spec fn done(self) -> StepView {
        match self.outcome {
            Ok(exit_code) => StepView::Read(
                ReadingView { combine_stderr: self.combine_stderr, stdout: None, exit_code },
            ),
            Err(message) => StepView::Raise(message),
        }
    }
}

impl ExecutingView {
    /// What follows the end of the job, whether it could be run or not: the shell's table is
    /// rid of the capture files first, where the job asks for that.
    pub open spec fn done(self, outcome: Result<u8, Seq<char>>) -> StepView {
        let restoring = RestoringView { combine_stderr: self.combine_stderr, outcome };
        if self.restores {
            StepView::Restore(restoring)
        } else {
            restoring.done()
        }
    }
}

impl ReadingView {
    /// The stream that is due.
    pub open spec fn stream(self) -> Stream {
        if self.stdout is None {
            Stream::Stdout
        } else {
            Stream::Stderr
        }
    }

    /// What follows the reading of a capture file: the file of the standard error, unless it
    /// was left unused, and then the result.
    pub open spec fn captured(self, text: Seq<char>) -> StepView {
        match self.stdout {
            None => if self.combine_stderr {
                StepView::Return(
                    CompletedCommandView {
                        stdout: text,
                        stderr: seq![],
                        exit_code: self.exit_code,
                    },
                )
            } else {
                StepView::Read(ReadingView { stdout: Some(text), ..self })
            },
            Some(stdout) => StepView::Return(
                CompletedCommandView { stdout, stderr: text, exit_code: self.exit_code },
            ),
        }
    }
}

/// The first step of a run.
pub open spec fn started(job: JobView, combine_stderr: bool) -> StepView {
    StepView::Prepare(PreparingView { stage: Stage::CreatingStdout, job, combine_stderr })
}

/// Optional arguments, none if absent.
pub open spec fn args_of(args: Option<Vec<String>>) -> Seq<Seq<char>> {
    match args {
        Some(args) => args.deep_view(),
        None => seq![],
    }
}

/// Optional arguments, none if absent.
fn args_or_none(args: Option<Vec<String>>) -> (res: Vec<String>)
    ensures
        res.deep_view() == args_of(args),
{
    match args {
        Some(args) => args,
        None => {
            let none: Vec<String> = Vec::new();
            assert(none.deep_view() =~= seq![]);
            none
        },
    }
}

/// The text of a capture file.
pub fn read_capture(bytes: Vec<u8>) -> (text: String)
    ensures
        text@ == readable(bytes@),
        !valid_utf8(bytes@) ==> text@.contains(REPLACEMENT),
{
    to_readable(bytes.as_slice())
}

impl Step {
    /// Starts a job with its output captured.
    fn start(job: Job, combine_stderr: bool) -> (step: Step)
        ensures
            step@ == started(job@, combine_stderr),
    {
        Step::Prepare(Preparing { stage: Stage::CreatingStdout, job, combine_stderr })
    }

    /// Runs a command string, capturing its output, without exit handling.
    ///
    /// If `combine_stderr` is true, the standard error goes where the standard output goes,
    /// and the result's own standard error is empty.
    pub fn run(command: &str, combine_stderr: bool) -> (step: Step)
        ensures
            step@ == started(JobView::Run(command@), combine_stderr),
    {
        Step::start(Job::Run(command.to_owned()), combine_stderr)
    }

    /// Runs a command string, capturing its output, with exit handling.
    pub fn run_c(command: &str, combine_stderr: bool) -> (step: Step)
        ensures
            step@ == started(JobView::RunC(command@), combine_stderr),
    {
        Step::start(Job::RunC(command.to_owned()), combine_stderr)
    }

    /// Runs a script with positional arguments, capturing its output, with exit handling. The
    /// two streams are kept apart, and the capture lasts as long as the script runs.
    pub fn run_script(path: Vec<u8>, args: Option<Vec<String>>) -> (step: Step)
        ensures
            step@ == started(JobView::RunScript(path@, args_of(args)), false),
    {
        let args = args_or_none(args);
        Step::start(Job::RunScript(path, args), false)
    }

    /// Invokes a shell function with arguments, capturing its output.
    pub fn call_function(name: &str, args: Option<Vec<String>>, combine_stderr: bool) -> (step:
        Step)
        ensures
            step@ == started(JobView::CallFunction(name@, args_of(args)), combine_stderr),
    {
        let args = args_or_none(args);
        Step::start(Job::CallFunction(name.to_owned(), args), combine_stderr)
    }
}

impl Preparing {
    /// The preparation that is due.
    pub fn preparation(&self) -> (res: Preparation)
        ensures
            res == self@.preparation(),
    {
        match self.stage {
            Stage::CreatingStdout => Preparation::CreateFile(Stream::Stdout),
            Stage::CreatingStderr => Preparation::CreateFile(Stream::Stderr),
            Stage::CloningStdout => Preparation::CloneHandle(Stream::Stdout, Stream::Stdout),
            Stage::CloningStderr => {
                let source = if self.combine_stderr {
                    Stream::Stdout
                } else {
                    Stream::Stderr
                };
                Preparation::CloneHandle(source, Stream::Stderr)
            },
        }
    }

    /// Goes on after the preparation, unless it failed with the given message.
    pub fn finish(self, outcome: Result<(), String>) -> (step: Step)
        ensures
            step@ == match outcome {
                Ok(_) => self@.done(),
                Err(message) => StepView::Raise(message@),
            },
    {
        if let Err(message) = outcome {
            return Step::Raise(message);
        }
        let Preparing { stage, job, combine_stderr } = self;
        match stage {
            Stage::CreatingStdout => Step::Prepare(
                Preparing { stage: Stage::CreatingStderr, job, combine_stderr },
            ),
            Stage::CreatingStderr => Step::Prepare(
                Preparing { stage: Stage::CloningStdout, job, combine_stderr },
            ),
            Stage::CloningStdout => Step::Prepare(
                Preparing { stage: Stage::CloningStderr, job, combine_stderr },
            ),
            Stage::CloningStderr => {
                let restores = job.restores();
                Step::Execute(job, Executing { combine_stderr, restores })
            },
        }
    }
}

impl Executing {
    /// Goes on after the job with its exit code, or with the message of the failure to run it.
    pub fn finish(self, outcome: Result<u8, String>) -> (step: Step)
        ensures
            step@ == match outcome {
                Ok(exit_code) => self@.done(Ok(exit_code)),
                Err(message) => self@.done(Err(message@)),
            },
    {
        let restoring = Restoring { combine_stderr: self.combine_stderr, outcome };
        if self.restores {
            Step::Restore(restoring)
        } else {
            restoring.finish()
        }
    }
}

impl Restoring {
    /// Goes on after the shell's table was rid of the capture files.
    pub fn finish(self) -> (step: Step)
        ensures
            step@ == self@.done(),
    {
        match self.outcome {
            Ok(exit_code) => Step::Read(
                Reading { combine_stderr: self.combine_stderr, stdout: None, exit_code },
            ),
            Err(message) => Step::Raise(message),
        }
    }
}

impl Reading {
    /// The stream that is due.
    pub fn stream(&self) -> (res: Stream)
        ensures
            res == self@.stream(),
    {
        if self.stdout.is_none() {
            Stream::Stdout
        } else {
            Stream::Stderr
        }
    }

    /// Goes on with the text of the stream that was due.
    pub fn captured(self, text: String) -> (step: Step)
        ensures
            step@ == self@.captured(text@),
    {
        let Reading { combine_stderr, stdout, exit_code } = self;
        match stdout {
            None => {
                if combine_stderr {
                    let stderr = String::new();
                    Step::Return(CompletedCommand { stdout: text, stderr, exit_code })
                } else {
                    Step::Read(Reading { combine_stderr, stdout: Some(text), exit_code })
                }
            },
            Some(stdout) => Step::Return(CompletedCommand { stdout, stderr: text, exit_code }),
        }
    }

    /// Goes on with what the capture file holds, unless reading it failed with the given
    /// message.
    pub fn finish(self, outcome: Result<Vec<u8>, String>) -> (step: Step)
        ensures
            step@ == match outcome {
                Ok(bytes) => self@.captured(readable(bytes@)),
                Err(message) => StepView::Raise(message@),
            },
            outcome matches Ok(bytes) ==> !valid_utf8(bytes@) ==> readable(bytes@).contains(
                REPLACEMENT,
            ),
    {
        match outcome {
            Ok(bytes) => self.captured(read_capture(bytes)),
            Err(message) => Step::Raise(message),
        }
    }
}

/// How the host's work on a step went.
pub enum Outcome {
    /// The preparation is done.
    Prepared,
    /// The job ended with this exit code.
    Exited(u8),
    /// The shell's table was rid of the capture files.
    Restored,
    /// The capture file holds these bytes.
    Captured(Seq<u8>),
    /// The work failed with this message.
    Failed(Seq<char>),
}

impl StepView {
    /// Whether nothing is left to do.
    pub open spec fn is_last(self) -> bool {
        self is Return || self is Raise
    }

    /// Whether an outcome is one of the work on this step.
    pub open spec fn has(self, outcome: Outcome) -> bool {
        match outcome {
            Outcome::Prepared => self is Prepare,
            Outcome::Exited(_) => self is Execute,
            Outcome::Restored => self is Restore,
            Outcome::Captured(_) => self is Read,
            Outcome::Failed(_) => self is Prepare || self is Execute || self is Read,
        }
    }

    /// The step that follows an outcome.
    pub open spec fn after(self, outcome: Outcome) -> StepView {
        match (self, outcome) {
            (StepView::Prepare(preparing), Outcome::Prepared) => preparing.done(),
            (StepView::Execute(_, executing), Outcome::Exited(code)) => executing.done(Ok(code)),
            (StepView::Execute(_, executing), Outcome::Failed(message)) => executing.done(
                Err(message),
            ),
            (StepView::Restore(restoring), Outcome::Restored) => restoring.done(),
            (StepView::Read(reading), Outcome::Captured(bytes)) => reading.captured(
                readable(bytes),
            ),
            (_, Outcome::Failed(message)) => StepView::Raise(message),
            _ => self,
        }
    }

    /// How many outcomes the run can still have, at most.
    pub open spec fn outcomes_left(self) -> nat {
        match self {
            StepView::Prepare(preparing) => match preparing.stage {
                Stage::CreatingStdout => 8,
                Stage::CreatingStderr => 7,
                Stage::CloningStdout => 6,
                Stage::CloningStderr => 5,
            },
            StepView::Execute(_, _) => 4,
            StepView::Restore(_) => 3,
            StepView::Read(reading) => if reading.stdout is None {
                2
            } else {
                1
            },
            StepView::Return(_) => 0,
            StepView::Raise(_) => 0,
        }
    }

    /// The message of a failure that has occurred.
    pub open spec fn failure(self) -> Option<Seq<char>> {
        match self {
            StepView::Raise(message) => Some(message),
            StepView::Restore(restoring) => match restoring.outcome {
                Err(message) => Some(message),
                Ok(_) => None,
            },
            _ => None,
        }
    }
}

/// A job runs after four preparations: both files are created, then a handle of the file of the
/// standard output is cloned for the standard output and, for the standard error, a handle of
/// its own file or, where the streams are combined, of the same file once more.
pub proof fn jobs_run_after_four_preparations(job: JobView, combine_stderr: bool)
    ensures
        ({
            let first = started(job, combine_stderr);
            let second = first.after(Outcome::Prepared);
            let third = second.after(Outcome::Prepared);
            let fourth = third.after(Outcome::Prepared);
            let source = if combine_stderr {
                Stream::Stdout
            } else {
                Stream::Stderr
            };
            &&& first is Prepare && first->Prepare_0.preparation() == Preparation::CreateFile(
                Stream::Stdout,
            )
            &&& second is Prepare && second->Prepare_0.preparation() == Preparation::CreateFile(
                Stream::Stderr,
            )
            &&& third is Prepare && third->Prepare_0.preparation() == Preparation::CloneHandle(
                Stream::Stdout,
                Stream::Stdout,
            )
            &&& fourth is Prepare && fourth->Prepare_0.preparation() == Preparation::CloneHandle(
                source,
                Stream::Stderr,
            )
            &&& fourth.after(Outcome::Prepared) == StepView::Execute(
                job,
                ExecutingView { combine_stderr, restores: job.restores() },
            )
        }),
{
}

/// An exception is raised for a failure of the host's work and for nothing else, with the
/// failure's own message: each failure is the one that comes out, what succeeds brings none
/// about, and no exit code does. Between a failure and its exception at most the shell's table
/// is rid of the capture files.
pub proof fn only_failures_are_raised(step: StepView, outcome: Outcome)
    requires
        step.has(outcome),
    ensures
        step.after(outcome).failure() == match outcome {
            Outcome::Failed(message) => Some(message),
            _ => step.failure(),
        },
        outcome is Failed ==> step.after(outcome) is Raise || (step is Execute && step.after(
            outcome,
        ) is Restore),
        step is Restore && step.failure() is Some ==> step.after(outcome) is Raise,
{
}

/// Every run comes to an end: each outcome brings it closer, and it stops exactly when it has
/// returned or raised.
pub proof fn runs_end(step: StepView, outcome: Outcome)
    ensures
        step.has(outcome) ==> step.after(outcome).outcomes_left() < step.outcomes_left(),
        step.outcomes_left() == 0 <==> step.is_last(),
        step.is_last() ==> !step.has(outcome),
{
}

/// Captured bytes become their text: the bytes of a text come out as that text, and valid UTF-8
/// loses nothing.
pub proof fn captures_are_read_as_they_are(bytes: Vec<u8>, text: String)
    requires
        call_ensures(read_capture, (bytes,), text),
    ensures
        forall|original: Seq<char>|
            bytes@ == #[trigger] encode_utf8(original) ==> text@ == original,
        valid_utf8(bytes@) ==> encode_utf8(text@) == bytes@,
        !valid_utf8(bytes@) ==> text@ == lossy_text(bytes@) && text@.contains('\u{FFFD}'),
{
    assert forall|original: Seq<char>| bytes@ == #[trigger] encode_utf8(original) implies text@
        == original by {
        readable_forms_stand_for_their_bytes(bytes@, original);
    }
    readable_forms_stand_for_their_bytes(bytes@, seq![]);
}

/// Command strings and functions that take parameters find their capture files there; what takes
/// none finds them in the shell's table, and of those only a script has the table given back.
pub proof fn files_go_where_the_job_finds_them(job: Job, place: Installation, restores: bool)
    requires
        call_ensures(Job::installation, (&job,), place),
        call_ensures(Job::restores, (&job,), restores),
    ensures
        job is Run || job is CallFunction ==> place is ExecutionParams,
        job is RunC || job is RunScript ==> place is OpenFiles,
        restores <==> job is RunScript,
{
}

/// A capture file gives way to what its stream had before, and nothing else gives way.
pub proof fn only_capture_files_give_way(entry: Entry, stream: Option<Stream>)
    requires
        call_ensures(Entry::gives_way_to, (entry,), stream),
    ensures
        entry matches Entry::CaptureFile(own) ==> stream == Some(own),
        entry is Other ==> stream is None,
{
}

/// Whether these steps come one after the other while the host's work goes well: the
/// preparations succeed, the job ends with `exit_code`, and the capture files hold `stdout` and
/// `stderr`. A run that has returned or raised stays where it is.
pub open spec fn goes_well(
    steps: Seq<Step>,
    exit_code: u8,
    stdout: Vec<u8>,
    stderr: Vec<u8>,
) -> bool {
    forall|i: int|
        0 <= i < steps.len() - 1 ==> match #[trigger] steps[i] {
            Step::Prepare(preparing) => call_ensures(
                Preparing::finish,
                (preparing, Ok::<(), String>(())),
                steps[i + 1],
            ),
            Step::Execute(_, executing) => call_ensures(
                Executing::finish,
                (executing, Ok::<u8, String>(exit_code)),
                steps[i + 1],
            ),
            Step::Restore(restoring) => call_ensures(Restoring::finish, (restoring,), steps[i + 1]),
            Step::Read(reading) => is_read(reading, stdout, stderr, steps[i + 1]),
            _ => steps[i + 1] == steps[i],
        }
}

/// Whether the host, asked for the file of one of the streams, goes on to `next` with what that
/// file holds, as bytes or as text.
pub open spec fn is_read(reading: Reading, stdout: Vec<u8>, stderr: Vec<u8>, next: Step) -> bool {
    exists|stream: Stream|
        {
            let bytes = if stream is Stdout {
                stdout
            } else {
                stderr
            };
            &&& #[trigger] call_ensures(Reading::stream, (&reading,), stream)
            &&& call_ensures(Reading::finish, (reading, Ok::<Vec<u8>, String>(bytes)), next) || (
            exists|text: String|
                text@ == readable(bytes@) && #[trigger] call_ensures(
                    Reading::captured,
                    (reading, text),
                    next,
                ))
        }
}

/// A run that was started for `job` and goes well, step by step.
proof fn steps_of_a_run(
    job: JobView,
    combine_stderr: bool,
    steps: Seq<Step>,
    exit_code: u8,
    stdout: Vec<u8>,
    stderr: Vec<u8>,
)
    requires
        steps.len() == 9,
        goes_well(steps, exit_code, stdout, stderr),
        steps[0]@ == started(job, combine_stderr),
    ensures
        forall|i: int| 0 <= i < 4 ==> (#[trigger] steps[i]) is Prepare,
        steps[0]->Prepare_0@ == (PreparingView {
            stage: Stage::CreatingStdout,
            job,
            combine_stderr,
        }),
        steps[1]->Prepare_0@ == (PreparingView {
            stage: Stage::CreatingStderr,
            job,
            combine_stderr,
        }),
        steps[2]->Prepare_0@ == (PreparingView {
            stage: Stage::CloningStdout,
            job,
            combine_stderr,
        }),
        steps[3]->Prepare_0@ == (PreparingView {
            stage: Stage::CloningStderr,
            job,
            combine_stderr,
        }),
        steps[4] is Execute,
        steps[4]->Execute_0@ == job,
        steps[4]->Execute_1@ == (ExecutingView { combine_stderr, restores: job is RunScript }),
        steps[5] is Restore <==> job is RunScript,
        steps[5] is Read <==> !(job is RunScript),
        steps[8] is Return,
        steps[8]->Return_0.exit_code == exit_code,
        steps[8]->Return_0.stdout@ == readable(stdout@),
        steps[8]->Return_0.stderr@ == if combine_stderr {
            seq![]
        } else {
            readable(stderr@)
        },
{
    assert(steps[0] is Prepare);
    assert(steps[1] is Prepare);
    assert(steps[2] is Prepare);
    assert(steps[3] is Prepare);
    assert(steps[4] is Execute);
    if job is RunScript {
        assert(steps[5] is Restore);
        assert(steps[6] is Read);
        assert(steps[7] is Read || steps[7] is Return);
    } else {
        assert(steps[5] is Read);
        assert(steps[6] is Read || steps[6] is Return);
        assert(steps[7] is Return);
    }
}

/// Running a command string runs that very string, and the result holds the exit code and what
/// the two capture files held, or all of it as standard output where the streams are combined.
pub proof fn command_strings_are_run_as_given(
    command: &str,
    combine_stderr: bool,
    steps: Seq<Step>,
    exit_code: u8,
    stdout: Vec<u8>,
    stderr: Vec<u8>,
)
    requires
        steps.len() == 9,
        goes_well(steps, exit_code, stdout, stderr),
        call_ensures(Step::run, (command, combine_stderr), steps[0]),
    ensures
        steps[4] is Execute,
        steps[4]->Execute_0 is Run,
        steps[4]->Execute_0->Run_0@ == command@,
        !(steps[5] is Restore),
        steps[8] is Return,
        steps[8]->Return_0.exit_code == exit_code,
        steps[8]->Return_0.stdout@ == readable(stdout@),
        combine_stderr ==> steps[8]->Return_0.stderr@.len() == 0,
        !combine_stderr ==> steps[8]->Return_0.stderr@ == readable(stderr@),
{
    steps_of_a_run(
        JobView::Run(command@),
        combine_stderr,
        steps,
        exit_code,
        stdout,
        stderr,
    );
}

/// Running a command string with exit handling runs that very string, and the result holds the
/// exit code and what the two capture files held, or all of it as standard output where the
/// streams are combined.
pub proof fn command_strings_with_exit_handling_are_run_as_given(
    command: &str,
    combine_stderr: bool,
    steps: Seq<Step>,
    exit_code: u8,
    stdout: Vec<u8>,
    stderr: Vec<u8>,
)
    requires
        steps.len() == 9,
        goes_well(steps, exit_code, stdout, stderr),
        call_ensures(Step::run_c, (command, combine_stderr), steps[0]),
    ensures
        steps[4] is Execute,
        steps[4]->Execute_0 is RunC,
        steps[4]->Execute_0->RunC_0@ == command@,
        !(steps[5] is Restore),
        steps[8] is Return,
        steps[8]->Return_0.exit_code == exit_code,
        steps[8]->Return_0.stdout@ == readable(stdout@),
        combine_stderr ==> steps[8]->Return_0.stderr@.len() == 0,
        !combine_stderr ==> steps[8]->Return_0.stderr@ == readable(stderr@),
{
    steps_of_a_run(
        JobView::RunC(command@),
        combine_stderr,
        steps,
        exit_code,
        stdout,
        stderr,
    );
}

/// The arguments given to a script are the arguments that it runs with: as many, each with its
/// text at its place, and none where none are given. The script is the one at the given path, the
/// shell's table is given back right after it, and the result keeps the two streams apart.
pub proof fn scripts_run_with_the_arguments_given(
    path: Vec<u8>,
    args: Option<Vec<String>>,
    steps: Seq<Step>,
    exit_code: u8,
    stdout: Vec<u8>,
    stderr: Vec<u8>,
)
    requires
        steps.len() == 9,
        goes_well(steps, exit_code, stdout, stderr),
        call_ensures(Step::run_script, (path, args), steps[0]),
    ensures
        steps[4] is Execute,
        steps[4]->Execute_0 is RunScript,
        steps[4]->Execute_0->RunScript_0@ == path@,
        args is None ==> steps[4]->Execute_0->RunScript_1@.len() == 0,
        args matches Some(given) ==> {
            let used = steps[4]->Execute_0->RunScript_1;
            &&& used@.len() == given@.len()
            &&& forall|i: int| 0 <= i < used@.len() ==> (#[trigger] used@[i])@ == given@[i]@
        },
        steps[5] is Restore,
        steps[8] is Return,
        steps[8]->Return_0.exit_code == exit_code,
        steps[8]->Return_0.stdout@ == readable(stdout@),
        steps[8]->Return_0.stderr@ == readable(stderr@),
{
    steps_of_a_run(
        JobView::RunScript(path@, args_of(args)),
        false,
        steps,
        exit_code,
        stdout,
        stderr,
    );
    let used = steps[4]->Execute_0->RunScript_1;
    assert(used.deep_view().len() == used@.len());
    if let Some(given) = args {
        assert(used.deep_view() =~= given.deep_view().skip(0));
        texts_of_a_copy(used, given, 0);
    }
}

/// The arguments given to a function are the arguments that it is called with: as many, each with
/// its text at its place, and none where none are given. The function is the one of the given
/// name, and the result holds what the two capture files held, or all of it as standard output
/// where the streams are combined.
pub proof fn functions_are_called_with_the_arguments_given(
    name: &str,
    args: Option<Vec<String>>,
    combine_stderr: bool,
    steps: Seq<Step>,
    exit_code: u8,
    stdout: Vec<u8>,
    stderr: Vec<u8>,
)
    requires
        steps.len() == 9,
        goes_well(steps, exit_code, stdout, stderr),
        call_ensures(Step::call_function, (name, args, combine_stderr), steps[0]),
    ensures
        steps[4] is Execute,
        steps[4]->Execute_0 is CallFunction,
        steps[4]->Execute_0->CallFunction_0@ == name@,
        args is None ==> steps[4]->Execute_0->CallFunction_1@.len() == 0,
        args matches Some(given) ==> {
            let used = steps[4]->Execute_0->CallFunction_1;
            &&& used@.len() == given@.len()
            &&& forall|i: int| 0 <= i < used@.len() ==> (#[trigger] used@[i])@ == given@[i]@
        },
        !(steps[5] is Restore),
        steps[8] is Return,
        steps[8]->Return_0.exit_code == exit_code,
        steps[8]->Return_0.stdout@ == readable(stdout@),
        combine_stderr ==> steps[8]->Return_0.stderr@.len() == 0,
        !combine_stderr ==> steps[8]->Return_0.stderr@ == readable(stderr@),
{
    steps_of_a_run(
        JobView::CallFunction(name@, args_of(args)),
        combine_stderr,
        steps,
        exit_code,
        stdout,
        stderr,
    );
    let used = steps[4]->Execute_0->CallFunction_1;
    assert(used.deep_view().len() == used@.len());
    if let Some(given) = args {
        assert(used.deep_view() =~= given.deep_view().skip(0));
        texts_of_a_copy(used, given, 0);
    }
}

/// However a run was started, four preparations come first: both files are created, then a
/// handle of the first is cloned for the standard output, and for the standard error one of its
/// own file or, where the streams are combined, one more of the first.
pub proof fn runs_are_prepared_in_order(
    text: &str,
    path: Vec<u8>,
    args: Option<Vec<String>>,
    combine_stderr: bool,
    steps: Seq<Step>,
    exit_code: u8,
    stdout: Vec<u8>,
    stderr: Vec<u8>,
)
    requires
        steps.len() == 9,
        goes_well(steps, exit_code, stdout, stderr),
        call_ensures(Step::run, (text, combine_stderr), steps[0]) || call_ensures(
            Step::run_c,
            (text, combine_stderr),
            steps[0],
        ) || call_ensures(Step::call_function, (text, args, combine_stderr), steps[0]) || (
        !combine_stderr && call_ensures(Step::run_script, (path, args), steps[0])),
    ensures
        forall|i: int| 0 <= i < 4 ==> (#[trigger] steps[i]) is Prepare,
        forall|what: Preparation|
            call_ensures(Preparing::preparation, (&(steps[0]->Prepare_0),), what) ==> what
                == Preparation::CreateFile(Stream::Stdout),
        forall|what: Preparation|
            call_ensures(Preparing::preparation, (&(steps[1]->Prepare_0),), what) ==> what
                == Preparation::CreateFile(Stream::Stderr),
        forall|what: Preparation|
            call_ensures(Preparing::preparation, (&(steps[2]->Prepare_0),), what) ==> what
                == Preparation::CloneHandle(Stream::Stdout, Stream::Stdout),
        forall|what: Preparation|
            call_ensures(Preparing::preparation, (&(steps[3]->Prepare_0),), what) ==> what
                == Preparation::CloneHandle(
                if combine_stderr {
                    Stream::Stdout
                } else {
                    Stream::Stderr
                },
                Stream::Stderr,
            ),
        steps[4] is Execute,
{
    let job = steps[0]@->Prepare_0.job;
    steps_of_a_run(job, combine_stderr, steps, exit_code, stdout, stderr);
}

/// A run that fails says why: whatever piece of the host's work fails, its message is raised as it
/// is. Only a script has the shell's table given back in between, and then too, the message is
/// raised.
pub proof fn failures_are_raised_as_they_are(
    text: &str,
    path: Vec<u8>,
    args: Option<Vec<String>>,
    combine_stderr: bool,
    steps: Seq<Step>,
    exit_code: u8,
    stdout: Vec<u8>,
    stderr: Vec<u8>,
    at: int,
    message: String,
    next: Step,
)
    requires
        steps.len() == 9,
        goes_well(steps, exit_code, stdout, stderr),
        0 <= at < 8,
        call_ensures(Step::run, (text, combine_stderr), steps[0]) || call_ensures(
            Step::run_c,
            (text, combine_stderr),
            steps[0],
        ) || call_ensures(Step::call_function, (text, args, combine_stderr), steps[0]) || (
        !combine_stderr && call_ensures(Step::run_script, (path, args), steps[0])),
        match steps[at] {
            Step::Prepare(preparing) => call_ensures(
                Preparing::finish,
                (preparing, Err::<(), String>(message)),
                next,
            ),
            Step::Execute(_, executing) => call_ensures(
                Executing::finish,
                (executing, Err::<u8, String>(message)),
                next,
            ),
            Step::Read(reading) => call_ensures(
                Reading::finish,
                (reading, Err::<Vec<u8>, String>(message)),
                next,
            ),
            _ => false,
        },
    ensures
        next is Restore <==> steps[at] is Execute && steps[at]->Execute_0 is RunScript,
        !(next is Restore) ==> next is Raise && next->Raise_0@ == message@,
        next matches Step::Restore(restoring) ==> forall|last: Step| #[trigger]
            call_ensures(Restoring::finish, (restoring,), last) ==> last is Raise
                && last->Raise_0@ == message@,
{
    let job = steps[0]@->Prepare_0.job;
    steps_of_a_run(job, combine_stderr, steps, exit_code, stdout, stderr);
    if steps[at] is Execute {
        assert(at == 4) by {
            assert(steps[5] is Restore || steps[5] is Read);
            assert(steps[6] is Read || steps[6] is Return);
            assert(steps[7] is Read || steps[7] is Return);
        }
    }
}

} // verus!
