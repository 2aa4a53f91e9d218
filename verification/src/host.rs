//! What a captured run does to the files and to the shell that the host works on.
//!
//! The host is modelled as far as a run touches it: what the two entries of the shell's table
//! of open files refer to, and what the two capture files of the run hold.

use vstd::prelude::*;
use crate::capture::{
    started, Entry, Installation, JobView, Outcome, Preparation, Stage, StepView, Stream,
};
use crate::completed::CompletedCommandView;
use crate::text::readable;

verus! {

/// What an open file refers to.
pub enum Target {
    /// The file that this run created for a stream.
    Capture(Stream),
    /// Anything else, such as a terminal, a file of an earlier run, or nothing at all.
    Elsewhere(int),
}

/// What the two output streams refer to.
pub struct Streams {
    pub stdout: Target,
    pub stderr: Target,
}

impl Streams {
    /// What one of the streams refers to.
    pub open spec fn of(self, stream: Stream) -> Target {
        match stream {
            Stream::Stdout => self.stdout,
            Stream::Stderr => self.stderr,
        }
    }
}

/// Something that a job writes to one of its streams.
pub struct Write {
    pub stream: Stream,
    pub bytes: Seq<u8>,
}

/// All that was written to a stream, in order.
pub open spec fn written_to(writes: Seq<Write>, stream: Stream) -> Seq<u8>
    decreases writes.len(),
{
    if writes.len() == 0 {
        seq![]
    } else if writes.last().stream == stream {
        written_to(writes.drop_last(), stream) + writes.last().bytes
    } else {
        written_to(writes.drop_last(), stream)
    }
}

/// All that was written to either stream, in order.
pub open spec fn written(writes: Seq<Write>) -> Seq<u8>
    decreases writes.len(),
{
    if writes.len() == 0 {
        seq![]
    } else {
        written(writes.drop_last()) + writes.last().bytes
    }
}

/// What reaches the capture file of a stream while the job's streams refer to `installed`.
pub open spec fn landed(writes: Seq<Write>, installed: Streams, file: Stream) -> Seq<u8>
    decreases writes.len(),
{
    if writes.len() == 0 {
        seq![]
    } else if installed.of(writes.last().stream) == Target::Capture(file) {
        landed(writes.drop_last(), installed, file) + writes.last().bytes
    } else {
        landed(writes.drop_last(), installed, file)
    }
}

/// What a job makes of its entries in the shell's table by redirections of its own, such as
/// `exec >file`.
pub struct Redirections {
    pub stdout: Option<Target>,
    pub stderr: Option<Target>,
}

impl Redirections {
    /// Whether the job redirects neither stream.
    pub open spec fn are_none(self) -> bool {
        self.stdout is None && self.stderr is None
    }

    /// The entries after the redirections.
    pub open spec fn applied(self, table: Streams) -> Streams {
        Streams {
            stdout: match self.stdout {
                Some(target) => target,
                None => table.stdout,
            },
            stderr: match self.stderr {
                Some(target) => target,
                None => table.stderr,
            },
        }
    }
}

/// What a job does when it is run: what it writes to the streams that it finds, and how it
/// redirects the entries of the shell's table for what comes after it.
pub struct Effects {
    pub writes: Seq<Write>,
    pub redirections: Redirections,
}

impl Target {
    /// What the library is told of an entry that refers to this.
    pub open spec fn entry(self) -> Entry {
        match self {
            Target::Capture(stream) => Entry::CaptureFile(stream),
            Target::Elsewhere(_) => Entry::Other,
        }
    }

    /// What an entry that refers to this refers to after the table was rid of the capture
    /// files, which had replaced `replaced`.
    pub open spec fn given_back(self, replaced: Streams) -> Target {
        match self.entry().spec_gives_way_to() {
            Some(stream) => replaced.of(stream),
            None => self,
        }
    }
}

impl Streams {
    /// The entries after the table was rid of the capture files, which had replaced `replaced`.
    pub open spec fn given_back(self, replaced: Streams) -> Streams {
        Streams {
            stdout: self.stdout.given_back(replaced),
            stderr: self.stderr.given_back(replaced),
        }
    }
}

/// The host's side of a run.
pub struct Host {
    /// The entries of the shell's table of open files.
    pub table: Streams,
    /// The entries that an installation has replaced.
    pub replaced: Streams,
    /// The cloned handles.
    pub handles: Streams,
    /// What the capture file of the standard output holds.
    pub out: Seq<u8>,
    /// What the capture file of the standard error holds.
    pub err: Seq<u8>,
}

impl Host {
    /// The host after it did the work of a step, where the job, if it was run, had these
    /// effects. A file is created empty.
    pub open spec fn perform(self, step: StepView, effects: Effects) -> Host {
        match step {
            StepView::Prepare(preparing) => match preparing.preparation() {
                Preparation::CreateFile(Stream::Stdout) => Host { out: seq![], ..self },
                Preparation::CreateFile(Stream::Stderr) => Host { err: seq![], ..self },
                Preparation::CloneHandle(source, Stream::Stdout) => Host {
                    handles: Streams { stdout: Target::Capture(source), ..self.handles },
                    ..self
                },
                Preparation::CloneHandle(source, Stream::Stderr) => Host {
                    handles: Streams { stderr: Target::Capture(source), ..self.handles },
                    ..self
                },
            },
            StepView::Execute(job, _) => {
                let ready = match job.installation() {
                    Installation::ExecutionParams => self,
                    Installation::OpenFiles => Host {
                        table: self.handles,
                        replaced: self.table,
                        ..self
                    },
                };
                Host {
                    table: effects.redirections.applied(ready.table),
                    out: self.out + landed(effects.writes, self.handles, Stream::Stdout),
                    err: self.err + landed(effects.writes, self.handles, Stream::Stderr),
                    ..ready
                }
            },
            StepView::Restore(_) => Host { table: self.table.given_back(self.replaced), ..self },
            _ => self,
        }
    }

    /// How the work of a step ends if all goes well and the job ends with `exit_code`.
    pub open spec fn success(self, step: StepView, exit_code: u8) -> Outcome {
        match step {
            StepView::Execute(_, _) => Outcome::Exited(exit_code),
            StepView::Restore(_) => Outcome::Restored,
            StepView::Read(reading) => Outcome::Captured(
                match reading.stream() {
                    Stream::Stdout => self.out,
                    Stream::Stderr => self.err,
                },
            ),
            _ => Outcome::Prepared,
        }
    }
}

/// The last step of a run in which all goes well.
pub open spec fn completed(
    step: StepView,
    host: Host,
    effects: Effects,
    exit_code: u8,
) -> StepView
    decreases step.outcomes_left(),
{
    if step.is_last() {
        step
    } else {
        let after = host.perform(step, effects);
        completed(step.after(after.success(step, exit_code)), after, effects, exit_code)
    }
}

/// The step that a run is at, and the host, after pieces of work that ended with these
/// outcomes.
pub open spec fn progress(
    step: StepView,
    host: Host,
    effects: Effects,
    outcomes: Seq<Outcome>,
) -> (StepView, Host)
    decreases outcomes.len(),
{
    if outcomes.len() == 0 {
        (step, host)
    } else {
        let (at, now) = progress(step, host, effects, outcomes.drop_last());
        (at.after(outcomes.last()), now.perform(at, effects))
    }
}

/// Whether each outcome is one of the work on the step whose turn it is.
pub open spec fn in_turn(
    step: StepView,
    host: Host,
    effects: Effects,
    outcomes: Seq<Outcome>,
) -> bool
    decreases outcomes.len(),
{
    outcomes.len() == 0 || (in_turn(step, host, effects, outcomes.drop_last()) && progress(
        step,
        host,
        effects,
        outcomes.drop_last(),
    ).0.has(outcomes.last()))
}

/// How many pieces of work come before the job.
pub open spec fn preparations() -> nat {
    4
}

/// The streams as a job of the run finds them.
pub open spec fn captured_streams(combine_stderr: bool) -> Streams {
    Streams {
        stdout: Target::Capture(Stream::Stdout),
        stderr: Target::Capture(
            if combine_stderr {
                Stream::Stdout
            } else {
                Stream::Stderr
            },
        ),
    }
}

/// The shell's table after a job, where `table` is what it was before the run.
pub open spec fn table_after(
    job: JobView,
    combine_stderr: bool,
    table: Streams,
    redirections: Redirections,
) -> Streams {
    match job.installation() {
        Installation::ExecutionParams => redirections.applied(table),
        Installation::OpenFiles => {
            let left = redirections.applied(captured_streams(combine_stderr));
            if job.restores() {
                left.given_back(table)
            } else {
                left
            }
        },
    }
}

/// The state of a run of `job` and of its host after `done` pieces of work, where `table` is the
/// shell's table before the run.
spec fn consistent(
    job: JobView,
    combine_stderr: bool,
    table: Streams,
    redirections: Redirections,
    done: nat,
    step: StepView,
    host: Host,
) -> bool {
    let after_job = table_after(job, combine_stderr, table, redirections);
    match step {
        StepView::Prepare(preparing) => {
            &&& preparing.job == job && preparing.combine_stderr == combine_stderr
            &&& host.table == table
            &&& preparing.stage is CloningStderr ==> host.handles.stdout == Target::Capture(
                Stream::Stdout,
            )
            &&& done == match preparing.stage {
                Stage::CreatingStdout => 0nat,
                Stage::CreatingStderr => 1,
                Stage::CloningStdout => 2,
                Stage::CloningStderr => 3,
            }
        },
        StepView::Execute(j, executing) => {
            &&& j == job && executing.restores == job.restores()
            &&& host.table == table
            &&& host.handles == captured_streams(combine_stderr)
            &&& done == preparations()
        },
        StepView::Restore(_) => {
            &&& job.restores()
            &&& host.replaced == table
            &&& host.table == redirections.applied(captured_streams(combine_stderr))
            &&& done > preparations()
        },
        StepView::Read(_) => host.table == after_job && done > preparations(),
        StepView::Return(_) => host.table == after_job && done > preparations(),
        StepView::Raise(_) => host.table == if done > preparations() {
            after_job
        } else {
            table
        },
    }
}

proof fn progress_is_consistent(
    job: JobView,
    combine_stderr: bool,
    host: Host,
    effects: Effects,
    outcomes: Seq<Outcome>,
)
    requires
        in_turn(started(job, combine_stderr), host, effects, outcomes),
    ensures
        ({
            let (at, now) = progress(started(job, combine_stderr), host, effects, outcomes);
            consistent(
                job,
                combine_stderr,
                host.table,
                effects.redirections,
                outcomes.len(),
                at,
                now,
            )
        }),
    decreases outcomes.len(),
{
    if outcomes.len() > 0 {
        progress_is_consistent(job, combine_stderr, host, effects, outcomes.drop_last());
    }
}

/// Capture through the parameters of an execution never touches the shell's own table: at every
/// moment of the run, and whatever fails, its entries are what they were before, but for those
/// that the job itself has redirected.
pub proof fn parameters_leave_the_table_alone(
    job: JobView,
    combine_stderr: bool,
    host: Host,
    effects: Effects,
    outcomes: Seq<Outcome>,
)
    requires
        job.installation() == Installation::ExecutionParams,
        in_turn(started(job, combine_stderr), host, effects, outcomes),
    ensures
        ({
            let now = progress(started(job, combine_stderr), host, effects, outcomes).1;
            &&& effects.redirections.are_none() ==> now.table == host.table
            &&& now.table == if outcomes.len() > preparations() {
                effects.redirections.applied(host.table)
            } else {
                host.table
            }
        }),
{
    progress_is_consistent(job, combine_stderr, host, effects, outcomes);
}

/// A script is captured for the duration of its run: whether the run returns or raises, and
/// wherever it fails, the shell's table is then what it was before, if the script has
/// redirected nothing.
pub proof fn scripts_give_the_table_back(
    path: Seq<u8>,
    args: Seq<Seq<char>>,
    host: Host,
    effects: Effects,
    outcomes: Seq<Outcome>,
)
    requires
        effects.redirections.are_none(),
        in_turn(started(JobView::RunScript(path, args), false), host, effects, outcomes),
        progress(
            started(JobView::RunScript(path, args), false),
            host,
            effects,
            outcomes,
        ).0.is_last(),
    ensures
        progress(
            started(JobView::RunScript(path, args), false),
            host,
            effects,
            outcomes,
        ).1.table == host.table,
{
    progress_is_consistent(JobView::RunScript(path, args), false, host, effects, outcomes);
}

/// The redirections that a script has made of its own outlast its run: an entry that it has
/// pointed elsewhere stays so, one that it has made the same as a captured stream is the same
/// as what that stream is again, and one that it has not redirected is what it was before.
pub proof fn redirections_outlast_a_script(
    path: Seq<u8>,
    args: Seq<Seq<char>>,
    host: Host,
    effects: Effects,
    outcomes: Seq<Outcome>,
    stream: Stream,
)
    requires
        in_turn(started(JobView::RunScript(path, args), false), host, effects, outcomes),
        progress(
            started(JobView::RunScript(path, args), false),
            host,
            effects,
            outcomes,
        ).0.is_last(),
        outcomes.len() > preparations(),
    ensures
        ({
            let now = progress(
                started(JobView::RunScript(path, args), false),
                host,
                effects,
                outcomes,
            ).1;
            let redirected = match stream {
                Stream::Stdout => effects.redirections.stdout,
                Stream::Stderr => effects.redirections.stderr,
            };
            now.table.of(stream) == match redirected {
                Some(Target::Elsewhere(file)) => Target::Elsewhere(file),
                Some(Target::Capture(same)) => host.table.of(same),
                None => host.table.of(stream),
            }
        }),
{
    progress_is_consistent(JobView::RunScript(path, args), false, host, effects, outcomes);
}

/// A command string that is run with exit handling leaves the shell's table referring to its
/// capture files, but for the entries that it has redirected itself.
pub proof fn run_c_leaves_its_files_installed(
    command: Seq<char>,
    combine_stderr: bool,
    host: Host,
    effects: Effects,
    outcomes: Seq<Outcome>,
)
    requires
        in_turn(started(JobView::RunC(command), combine_stderr), host, effects, outcomes),
        outcomes.len() > preparations(),
    ensures
        progress(
            started(JobView::RunC(command), combine_stderr),
            host,
            effects,
            outcomes,
        ).1.table == effects.redirections.applied(captured_streams(combine_stderr)),
{
    progress_is_consistent(JobView::RunC(command), combine_stderr, host, effects, outcomes);
}

proof fn separate_writes_land_apart(writes: Seq<Write>)
    ensures
        landed(writes, captured_streams(false), Stream::Stdout) == written_to(
            writes,
            Stream::Stdout,
        ),
        landed(writes, captured_streams(false), Stream::Stderr) == written_to(
            writes,
            Stream::Stderr,
        ),
    decreases writes.len(),
{
    if writes.len() > 0 {
        separate_writes_land_apart(writes.drop_last());
    }
}

proof fn combined_writes_land_together(writes: Seq<Write>)
    ensures
        landed(writes, captured_streams(true), Stream::Stdout) == written(writes),
    decreases writes.len(),
{
    if writes.len() > 0 {
        combined_writes_land_together(writes.drop_last());
    }
}

/// Capture is per call: a run in which all goes well returns the job's exit code and exactly
/// what the job wrote to each stream. Nothing that the host held before enters the result.
pub proof fn separate_output_is_that_of_the_job(
    job: JobView,
    host: Host,
    effects: Effects,
    exit_code: u8,
)
    ensures
        completed(started(job, false), host, effects, exit_code) == StepView::Return(
            CompletedCommandView {
                stdout: readable(written_to(effects.writes, Stream::Stdout)),
                stderr: readable(written_to(effects.writes, Stream::Stderr)),
                exit_code,
            },
        ),
{
    reveal_with_fuel(completed, 9);
    let writes = effects.writes;
    separate_writes_land_apart(writes);
    assert(seq![] + written_to(writes, Stream::Stdout) =~= written_to(writes, Stream::Stdout));
    assert(seq![] + written_to(writes, Stream::Stderr) =~= written_to(writes, Stream::Stderr));
}

/// With the standard error combined into the standard output, a run in which all goes well
/// returns all that the job wrote, in order, as its standard output, and an empty standard
/// error.
pub proof fn combined_output_is_that_of_the_job(
    job: JobView,
    host: Host,
    effects: Effects,
    exit_code: u8,
)
    ensures
        completed(started(job, true), host, effects, exit_code) == StepView::Return(
            CompletedCommandView {
                stdout: readable(written(effects.writes)),
                stderr: seq![],
                exit_code,
            },
        ),
{
    reveal_with_fuel(completed, 9);
    let writes = effects.writes;
    combined_writes_land_together(writes);
    assert(seq![] + written(writes) =~= written(writes));
}

} // verus!
