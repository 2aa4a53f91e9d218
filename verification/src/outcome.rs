//! Exit codes of commands, and what encloses a command makes of its failure.

use vstd::prelude::*;
use crate::error::ErrorKind;

verus! {

/// How a command ended.
#[derive(Clone, Copy, Debug, PartialEq, Eq, Structural)]
pub enum ExecutionExitCode {
    /// The command succeeded.
    Success,
    /// The command failed in a way that has no code of its own.
    GeneralError,
    /// The command exists but could not be executed.
    CannotExecute,
    /// The command was not found.
    NotFound,
    /// The command chose its own code.
    Custom(u8),
}

/// The exit code of a failure that has no code of its own.
pub const GENERAL_ERROR: u8 = 1;

/// The exit code of a command that was refused or is not executable.
pub const CANNOT_EXECUTE: u8 = 126;

/// The exit code of a command that does not exist.
pub const NOT_FOUND: u8 = 127;

impl ExecutionExitCode {
    /// The number that stands for this code.
    pub open spec fn code(self) -> u8 {
        match self {
            ExecutionExitCode::Success => 0,
            ExecutionExitCode::GeneralError => GENERAL_ERROR,
            ExecutionExitCode::CannotExecute => CANNOT_EXECUTE,
            ExecutionExitCode::NotFound => NOT_FOUND,
            ExecutionExitCode::Custom(code) => code,
        }
    }
}

impl From<ExecutionExitCode> for u8 {
    fn from(code: ExecutionExitCode) -> (number: u8) {
        match code {
            ExecutionExitCode::Success => 0,
            ExecutionExitCode::GeneralError => GENERAL_ERROR,
            ExecutionExitCode::CannotExecute => CANNOT_EXECUTE,
            ExecutionExitCode::NotFound => NOT_FOUND,
            ExecutionExitCode::Custom(code) => code,
        }
    }
}

impl vstd::std_specs::convert::FromSpecImpl<ExecutionExitCode> for u8 {
    open spec fn obeys_from_spec() -> bool {
        true
    }

    open spec fn from_spec(code: ExecutionExitCode) -> u8 {
        code.code()
    }
}

/// What the enclosing list or loop makes of a command's outcome.
///
/// A program that was refused, and a command that does not exist, fail alone: they turn into
/// an exit code and the list or loop goes on. A command that was refused before
/// its dispatch ends the run, so that error is handed on, as are failures of the host.
pub open spec fn recovered(outcome: Result<ExecutionExitCode, ErrorKind>) -> Result<
    ExecutionExitCode,
    ErrorKind,
> {
    match outcome {
        Err(ErrorKind::ExecDenied(_, _)) => Ok(ExecutionExitCode::CannotExecute),
        Err(ErrorKind::CommandNotFound(_)) => Ok(ExecutionExitCode::NotFound),
        _ => outcome,
    }
}

/// Turns a command's own failure into its exit code and hands on every other error.
/// See [`recovered`].
pub fn recover(outcome: Result<ExecutionExitCode, ErrorKind>) -> (res: Result<
    ExecutionExitCode,
    ErrorKind,
>)
    ensures
        res == recovered(outcome),
{
    match outcome {
        Err(ErrorKind::ExecDenied(_, _)) => Ok(ExecutionExitCode::CannotExecute),
        Err(ErrorKind::CommandNotFound(_)) => Ok(ExecutionExitCode::NotFound),
        other => other,
    }
}

/// What is left of an outcome outside the subshell that it occurred in.
///
/// A subshell contains errors: whatever went wrong in it is an exit code outside. The one
/// error that gets out is that of a command that was refused before its dispatch.
pub open spec fn contained(outcome: Result<ExecutionExitCode, ErrorKind>) -> Result<
    ExecutionExitCode,
    ErrorKind,
> {
    match recovered(outcome) {
        Err(ErrorKind::CommandDenied(_, _)) => outcome,
        Err(_) => Ok(ExecutionExitCode::GeneralError),
        Ok(code) => Ok(code),
    }
}

/// Turns every error of a subshell into an exit code, but for one that ends the run.
/// See [`contained`].
pub fn contain(outcome: Result<ExecutionExitCode, ErrorKind>) -> (res: Result<
    ExecutionExitCode,
    ErrorKind,
>)
    ensures
        res == contained(outcome),
        res is Err <==> outcome is Err && outcome->Err_0 is CommandDenied,
{
    match recover(outcome) {
        Err(ErrorKind::CommandDenied(name, reason)) => Err(ErrorKind::CommandDenied(name, reason)),
        Err(_) => Ok(ExecutionExitCode::GeneralError),
        Ok(code) => Ok(code),
    }
}

/// What a command can stand in.
pub enum Enclosure {
    /// A list or loop, which recovers what fails alone.
    ListOrLoop,
    /// A subshell, which contains errors.
    Subshell,
}

/// What is left of a command's outcome outside all that encloses the command, from the inside
/// out.
pub open spec fn outside(
    outcome: Result<ExecutionExitCode, ErrorKind>,
    enclosures: Seq<Enclosure>,
) -> Result<ExecutionExitCode, ErrorKind>
    decreases enclosures.len(),
{
    if enclosures.len() == 0 {
        outcome
    } else {
        let inside = outside(outcome, enclosures.drop_last());
        match enclosures.last() {
            Enclosure::ListOrLoop => recovered(inside),
            Enclosure::Subshell => contained(inside),
        }
    }
}

/// A refusal before dispatch ends the run: it comes out unchanged of any nesting of lists, loops
/// and subshells.
pub proof fn command_denial_escapes(name: String, reason: String, enclosures: Seq<Enclosure>)
    ensures
        outside(Err(ErrorKind::CommandDenied(name, reason)), enclosures) == Err::<
            ExecutionExitCode,
            ErrorKind,
        >(ErrorKind::CommandDenied(name, reason)),
    decreases enclosures.len(),
{
    if enclosures.len() > 0 {
        command_denial_escapes(name, reason, enclosures.drop_last());
    }
}

/// A refusal before a spawn fails that command alone: what encloses the command sees "cannot
/// execute" and goes on, however deep the command stands.
pub proof fn exec_denial_is_recovered(
    program: String,
    reason: String,
    enclosures: Seq<Enclosure>,
)
    requires
        enclosures.len() > 0,
    ensures
        outside(Err(ErrorKind::ExecDenied(program, reason)), enclosures) == Ok::<
            ExecutionExitCode,
            ErrorKind,
        >(ExecutionExitCode::CannotExecute),
        ExecutionExitCode::CannotExecute.code() == CANNOT_EXECUTE,
    decreases enclosures.len(),
{
    if enclosures.len() > 1 {
        exec_denial_is_recovered(program, reason, enclosures.drop_last());
    } else {
        assert(outside(Err(ErrorKind::ExecDenied(program, reason)), enclosures.drop_last())
            == Err::<ExecutionExitCode, ErrorKind>(ErrorKind::ExecDenied(program, reason)));
    }
}

/// An exit code is the same outside of whatever encloses the command.
pub proof fn exit_codes_are_kept(code: ExecutionExitCode, enclosures: Seq<Enclosure>)
    ensures
        outside(Ok(code), enclosures) == Ok::<ExecutionExitCode, ErrorKind>(code),
    decreases enclosures.len(),
{
    if enclosures.len() > 0 {
        exit_codes_are_kept(code, enclosures.drop_last());
    }
}

/// No error but a refusal before dispatch gets out of a subshell, wherever in the nesting the
/// subshell stands.
pub proof fn subshells_contain_errors(
    outcome: Result<ExecutionExitCode, ErrorKind>,
    enclosures: Seq<Enclosure>,
)
    requires
        enclosures.contains(Enclosure::Subshell),
        !(outcome is Err && outcome->Err_0 is CommandDenied),
    ensures
        outside(outcome, enclosures) is Ok,
    decreases enclosures.len(),
{
    let inner = enclosures.drop_last();
    if enclosures.last() is Subshell {
        only_given_denials_come_out(outcome, inner);
    } else {
        assert(inner.contains(Enclosure::Subshell)) by {
            let i = choose|i: int|
                0 <= i < enclosures.len() && enclosures[i] == Enclosure::Subshell;
            assert(inner[i] == Enclosure::Subshell);
        }
        subshells_contain_errors(outcome, inner);
    }
}

/// What encloses a command makes up no refusal.
proof fn only_given_denials_come_out(
    outcome: Result<ExecutionExitCode, ErrorKind>,
    enclosures: Seq<Enclosure>,
)
    requires
        !(outcome is Err && outcome->Err_0 is CommandDenied),
    ensures
        !(outside(outcome, enclosures) is Err && outside(outcome, enclosures)->Err_0
            is CommandDenied),
    decreases enclosures.len(),
{
    if enclosures.len() > 0 {
        only_given_denials_come_out(outcome, enclosures.drop_last());
    }
}

/// A list or loop of commands while it runs.
pub enum ListRun {
    /// The next command is due; the last one ended like this.
    Going(ExecutionExitCode),
    /// No further command runs.
    Ended(ErrorKind),
}

impl ListRun {
    /// The run after one more command, unless it has ended.
    pub open spec fn spec_after(self, outcome: Result<ExecutionExitCode, ErrorKind>) -> ListRun {
        match self {
            ListRun::Going(_) => match recovered(outcome) {
                Ok(code) => ListRun::Going(code),
                Err(error) => ListRun::Ended(error),
            },
            ListRun::Ended(_) => self,
        }
    }

    /// The run after a number of commands with these outcomes.
    pub open spec fn after_all(self, outcomes: Seq<Result<ExecutionExitCode, ErrorKind>>) -> ListRun
        decreases outcomes.len(),
    {
        if outcomes.len() == 0 {
            self
        } else {
            self.after_all(outcomes.drop_last()).spec_after(outcomes.last())
        }
    }

    /// A list before its first command; with no command at all it succeeds.
    pub fn start() -> (run: ListRun)
        ensures
            run == ListRun::Going(ExecutionExitCode::Success),
    {
        ListRun::Going(ExecutionExitCode::Success)
    }

    /// Takes note of the outcome of the command that was due.
    pub fn after(self, outcome: Result<ExecutionExitCode, ErrorKind>) -> (run: ListRun)
        ensures
            run == self.spec_after(outcome),
    {
        match self {
            ListRun::Going(_) => match recover(outcome) {
                Ok(code) => ListRun::Going(code),
                Err(error) => ListRun::Ended(error),
            },
            ended => ended,
        }
    }
}

/// A list whose commands at worst fail alone goes on to its last command and reports how that
/// one ended.
pub proof fn recoverable_failures_do_not_end_a_list(
    first: ExecutionExitCode,
    outcomes: Seq<Result<ExecutionExitCode, ErrorKind>>,
)
    requires
        forall|i: int| 0 <= i < outcomes.len() ==> recovered(#[trigger] outcomes[i]) is Ok,
    ensures
        ListRun::Going(first).after_all(outcomes) == ListRun::Going(
            if outcomes.len() == 0 {
                first
            } else {
                recovered(outcomes.last())->Ok_0
            },
        ),
    decreases outcomes.len(),
{
    if outcomes.len() > 0 {
        recoverable_failures_do_not_end_a_list(first, outcomes.drop_last());
    }
}

/// A refusal before dispatch ends a list where it occurs: whatever would have come after it
/// changes nothing.
pub proof fn command_denial_ends_a_list(
    first: ExecutionExitCode,
    before: Seq<Result<ExecutionExitCode, ErrorKind>>,
    name: String,
    reason: String,
    rest: Seq<Result<ExecutionExitCode, ErrorKind>>,
)
    requires
        forall|i: int| 0 <= i < before.len() ==> recovered(#[trigger] before[i]) is Ok,
    ensures
        ListRun::Going(first).after_all(
            before.push(Err(ErrorKind::CommandDenied(name, reason))) + rest,
        ) == ListRun::Ended(ErrorKind::CommandDenied(name, reason)),
    decreases rest.len(),
{
    let denial = Err::<ExecutionExitCode, ErrorKind>(ErrorKind::CommandDenied(name, reason));
    let all = before.push(denial) + rest;
    if rest.len() == 0 {
        recoverable_failures_do_not_end_a_list(first, before);
        assert(all.drop_last() =~= before);
    } else {
        command_denial_ends_a_list(first, before, name, reason, rest.drop_last());
        assert(all.drop_last() =~= before.push(denial) + rest.drop_last());
    }
}

/// Each way of ending has the number that shells give it, and a command's own code is kept.
pub proof fn ways_of_ending_have_their_numbers(code: ExecutionExitCode, number: u8)
    requires
        call_ensures(<u8 as From<ExecutionExitCode>>::from, (code,), number),
    ensures
        code is Success ==> number == 0,
        code is GeneralError ==> number == 1,
        code is CannotExecute ==> number == 126,
        code is NotFound ==> number == 127,
        code matches ExecutionExitCode::Custom(own) ==> number == own,
{
}

/// A list or loop recovers two failures, a refused program and a missing command, each with its
/// own exit code; every exit code and every other error it hands on as it is.
pub proof fn lists_recover_two_failures(
    outcome: Result<ExecutionExitCode, ErrorKind>,
    res: Result<ExecutionExitCode, ErrorKind>,
)
    requires
        call_ensures(recover, (outcome,), res),
    ensures
        outcome is Ok ==> res == outcome,
        outcome is Err && outcome->Err_0 is ExecDenied ==> res is Ok && res->Ok_0
            is CannotExecute,
        outcome is Err && outcome->Err_0 is CommandNotFound ==> res is Ok && res->Ok_0
            is NotFound,
        outcome is Err && !(outcome->Err_0 is ExecDenied) && !(outcome->Err_0
            is CommandNotFound) ==> res == outcome,
{
}

/// Outside of a subshell there is an exit code for every failure in it, but for one: a refusal
/// before dispatch comes out as it is.
pub proof fn subshells_hand_on_refused_commands(
    outcome: Result<ExecutionExitCode, ErrorKind>,
    res: Result<ExecutionExitCode, ErrorKind>,
)
    requires
        call_ensures(contain, (outcome,), res),
    ensures
        outcome is Ok ==> res == outcome,
        outcome is Err && outcome->Err_0 is CommandDenied ==> res == outcome,
        outcome is Err && outcome->Err_0 is ExecDenied ==> res is Ok && res->Ok_0
            is CannotExecute,
        outcome is Err && outcome->Err_0 is CommandNotFound ==> res is Ok && res->Ok_0
            is NotFound,
        outcome is Err && outcome->Err_0 is Unimplemented ==> res is Ok && res->Ok_0
            is GeneralError,
        outcome is Err && outcome->Err_0 is Io ==> res is Ok && res->Ok_0 is GeneralError,
{
}

/// Handed outwards through any nesting of lists, loops and subshells, a refusal before dispatch
/// stays what it is, a refused program is "cannot execute" from the first enclosure on, a missing
/// command "not found", and an exit code stays the same.
pub proof fn outcomes_are_handed_outwards(
    enclosures: Seq<Enclosure>,
    outcomes: Seq<Result<ExecutionExitCode, ErrorKind>>,
)
    requires
        outcomes.len() == enclosures.len() + 1,
        forall|i: int|
            0 <= i < enclosures.len() ==> match #[trigger] enclosures[i] {
                Enclosure::ListOrLoop => call_ensures(recover, (outcomes[i],), outcomes[i + 1]),
                Enclosure::Subshell => call_ensures(contain, (outcomes[i],), outcomes[i + 1]),
            },
    ensures
        outcomes[0] is Ok ==> outcomes.last() == outcomes[0],
        outcomes[0] is Err && outcomes[0]->Err_0 is CommandDenied ==> outcomes.last()
            == outcomes[0],
        outcomes[0] is Err && outcomes[0]->Err_0 is ExecDenied && enclosures.len() > 0 ==> {
            &&& outcomes.last() is Ok
            &&& outcomes.last()->Ok_0 is CannotExecute
        },
        outcomes[0] is Err && outcomes[0]->Err_0 is CommandNotFound && enclosures.len() > 0 ==> {
            &&& outcomes.last() is Ok
            &&& outcomes.last()->Ok_0 is NotFound
        },
    decreases enclosures.len(),
{
    if enclosures.len() > 0 {
        let last = enclosures.len() - 1;
        let inner = enclosures.drop_last();
        assert forall|i: int| 0 <= i < last implies match #[trigger] inner[i] {
            Enclosure::ListOrLoop => call_ensures(
                recover,
                (outcomes.drop_last()[i],),
                outcomes.drop_last()[i + 1],
            ),
            Enclosure::Subshell => call_ensures(
                contain,
                (outcomes.drop_last()[i],),
                outcomes.drop_last()[i + 1],
            ),
        } by {
            assert(inner[i] == enclosures[i]);
        }
        outcomes_are_handed_outwards(inner, outcomes.drop_last());
        assert(outcomes.drop_last().last() == outcomes[last]);
        assert(enclosures[last] == enclosures.last());
    }
}

/// A list whose commands end, are refused as programs or are missing makes every attempt, and
/// after each it stands with that command's exit code.
pub proof fn lists_go_on_after_what_fails_alone(
    outcomes: Seq<Result<ExecutionExitCode, ErrorKind>>,
    runs: Seq<ListRun>,
)
    requires
        runs.len() == outcomes.len() + 1,
        call_ensures(ListRun::start, (), runs[0]),
        forall|i: int|
            0 <= i < outcomes.len() ==> call_ensures(
                ListRun::after,
                (runs[i], #[trigger] outcomes[i]),
                runs[i + 1],
            ),
        forall|i: int|
            0 <= i < outcomes.len() ==> (#[trigger] outcomes[i]) is Ok || outcomes[i]->Err_0
                is ExecDenied || outcomes[i]->Err_0 is CommandNotFound,
    ensures
        runs[0] == ListRun::Going(ExecutionExitCode::Success),
        forall|i: int|
            0 <= i < outcomes.len() ==> runs[i + 1] == ListRun::Going(
                if (#[trigger] outcomes[i]) is Ok {
                    outcomes[i]->Ok_0
                } else if outcomes[i]->Err_0 is ExecDenied {
                    ExecutionExitCode::CannotExecute
                } else {
                    ExecutionExitCode::NotFound
                },
            ),
    decreases outcomes.len(),
{
    if outcomes.len() > 0 {
        let last = outcomes.len() - 1;
        let before = outcomes.drop_last();
        assert forall|i: int| 0 <= i < last implies call_ensures(
            ListRun::after,
            (runs.drop_last()[i], #[trigger] before[i]),
            runs.drop_last()[i + 1],
        ) by {
            assert(before[i] == outcomes[i]);
        }
        lists_go_on_after_what_fails_alone(before, runs.drop_last());
        assert(runs[last] is Going) by {
            if last > 0 {
                assert(before[last - 1] == outcomes[last - 1]);
                assert(runs.drop_last()[last] == runs[last]);
            }
        }
        assert(call_ensures(ListRun::after, (runs[last], outcomes[last]), runs[last + 1]));
        assert forall|i: int| 0 <= i < outcomes.len() implies runs[i + 1] == ListRun::Going(
            if (#[trigger] outcomes[i]) is Ok {
                outcomes[i]->Ok_0
            } else if outcomes[i]->Err_0 is ExecDenied {
                ExecutionExitCode::CannotExecute
            } else {
                ExecutionExitCode::NotFound
            },
        ) by {
            if i < last {
                assert(before[i] == outcomes[i]);
                assert(runs.drop_last()[i + 1] == runs[i + 1]);
            }
        }
    }
}

/// The first error that does not fail alone ends a list with that very error, and whatever is
/// reported to the list afterwards changes nothing.
pub proof fn lists_end_at_the_first_error(
    run: ListRun,
    outcome: Result<ExecutionExitCode, ErrorKind>,
    next: ListRun,
)
    requires
        call_ensures(ListRun::after, (run, outcome), next),
    ensures
        run is Ended ==> next == run,
        run is Going ==> (next is Ended <==> outcome is Err && !(outcome->Err_0 is ExecDenied)
            && !(outcome->Err_0 is CommandNotFound)),
        run is Going && next is Ended ==> next->Ended_0 == outcome->Err_0,
{
}

} // verus!
