//! Dispatch of commands under the eyes of an interceptor.

use vstd::prelude::*;
use vstd::utf8::encode_utf8;
use crate::error::{result_view, ErrorKind, ErrorKindView, IoError, IoErrorKind, IoErrorView};
use crate::extensions::{
    command_verdict, default_interceptor_allows_everything, exec_verdict, open_verdict,
    CommandDecision, CommandInterceptor, DefaultCommandInterceptor, ErrorFormatter, ExecDecision,
    OpenDecision, ShellExtensions, ShellExtensionsImpl,
};
use crate::outcome::{ExecutionExitCode, ListRun};
use crate::shell::Shell;
use crate::text::{readable, to_readable};

verus! {

/// Whether a command name is a path, which neither a `PATH` search nor the builtin table see.
pub fn contains_path_separator(name: &str) -> (res: bool)
    ensures
        res == name@.contains('/'),
{
    for c in it: name.chars()
        invariant
            it.seq() == name@,
            forall|i: int| 0 <= i < it.index() ==> name@[i] != '/',
    {
        if c == '/' {
            assert(name@[it.index()] == '/');
            return true;
        }
    }
    false
}

/// What a search for a command name turned up.
pub enum Lookup {
    /// The name is that of a builtin.
    Builtin,
    /// The name was found on the `PATH`, at this path.
    Found(Vec<u8>),
    /// Nothing has that name.
    NotFound,
}

/// A [`Lookup`] with its path as a sequence of bytes.
pub enum LookupView {
    Builtin,
    Found(Seq<u8>),
    NotFound,
}

impl View for Lookup {
    type V = LookupView;

    open spec fn view(&self) -> LookupView {
        match *self {
            Lookup::Builtin => LookupView::Builtin,
            Lookup::Found(path) => LookupView::Found(path@),
            Lookup::NotFound => LookupView::NotFound,
        }
    }
}

/// What a command name stands for: a name with a path separator is the path of a program, and
/// any other name stands for what the search turned up.
pub open spec fn target(name: Seq<char>, lookup: LookupView) -> LookupView {
    if name.contains('/') {
        LookupView::Found(encode_utf8(name))
    } else {
        lookup
    }
}

/// Determines what a command name stands for. See [`target`].
pub fn resolve_target(name: &str, lookup: Lookup) -> (res: Lookup)
    ensures
        res@ == target(name@, lookup@),
{
    if contains_path_separator(name) {
        Lookup::Found(name.as_bytes_vec())
    } else {
        lookup
    }
}

/// A program about to be executed, as it is put before the interceptor.
#[derive(Debug, PartialEq, Eq)]
pub struct ExecRequest {
    /// The command's name as written.
    pub name: String,
    /// The path of the program.
    pub program: Vec<u8>,
    /// The zeroth argument that the program will see.
    pub argv0: String,
    /// The arguments, excluding the zeroth.
    pub args: Vec<String>,
}

/// What an interceptor's decision about a command means for it.
pub open spec fn command_ruling_of(name: Seq<char>, decision: CommandDecision) -> Result<
    (),
    ErrorKindView,
> {
    match decision {
        CommandDecision::Allow => Ok(()),
        CommandDecision::Deny(reason) => Err(ErrorKindView::CommandDenied(name, reason@)),
    }
}

/// Turns a decision about a command into permission or refusal.
pub fn command_ruling(name: &str, decision: CommandDecision) -> (res: Result<(), ErrorKind>)
    ensures
        result_view(res) == command_ruling_of(name@, decision),
{
    match decision {
        CommandDecision::Allow => Ok(()),
        CommandDecision::Deny(reason) => Err(ErrorKind::CommandDenied(name.to_owned(), reason)),
    }
}

/// What an interceptor's decision about a program means for it.
pub open spec fn exec_ruling_of(program: Seq<char>, decision: ExecDecision) -> Result<
    (),
    ErrorKindView,
> {
    match decision {
        ExecDecision::Allow => Ok(()),
        ExecDecision::Deny(reason) => Err(ErrorKindView::ExecDenied(program, reason@)),
    }
}

/// Turns a decision about a program into permission or refusal.
pub fn exec_ruling(program: String, decision: ExecDecision) -> (res: Result<(), ErrorKind>)
    ensures
        result_view(res) == exec_ruling_of(program@, decision),
{
    match decision {
        ExecDecision::Allow => Ok(()),
        ExecDecision::Deny(reason) => Err(ErrorKind::ExecDenied(program, reason)),
    }
}

/// Asks the shell's interceptor about a program: it is shown the program's path as text and
/// the arguments without the zeroth, and its decision stands.
pub fn authorize_execution<SE: ShellExtensions>(shell: &Shell<SE>, request: &ExecRequest) -> (res:
    Result<(), ErrorKind>)
    ensures
        exists|decision: ExecDecision| #[trigger]
            exec_verdict(
                shell.interceptor(),
                readable(request.program@),
                request.args.deep_view(),
                decision,
            ) && result_view(res) == exec_ruling_of(readable(request.program@), decision),
{
    let program = to_readable(request.program.as_slice());
    let args = request.args.as_slice();
    assert(args.deep_view() =~= request.args.deep_view());
    let decision = shell.command_interceptor().before_exec(program.as_str(), args);
    assert(exec_verdict(
        shell.interceptor(),
        readable(request.program@),
        request.args.deep_view(),
        decision,
    ));
    exec_ruling(program, decision)
}

/// What becomes of a command that is dispatched.
#[derive(Debug, PartialEq, Eq)]
pub enum Dispatch {
    /// The shell runs the builtin itself.
    Builtin,
    /// The program at this path is spawned with these arguments, excluding the zeroth.
    Spawn(Vec<u8>, Vec<String>),
}

/// A [`Dispatch`] with its contents as sequences.
pub enum DispatchView {
    Builtin,
    Spawn(Seq<u8>, Seq<Seq<char>>),
}

impl View for Dispatch {
    type V = DispatchView;

    open spec fn view(&self) -> DispatchView {
        match *self {
            Dispatch::Builtin => DispatchView::Builtin,
            Dispatch::Spawn(program, args) => DispatchView::Spawn(program@, args.deep_view()),
        }
    }
}

/// The outcome of dispatching a command, given what its name stands for and whether the command
/// and, where it comes to that, the program are permitted.
pub open spec fn concluded(
    name: Seq<char>,
    args: Seq<Seq<char>>,
    target: LookupView,
    command_permission: Result<(), ErrorKindView>,
    exec_permission: Result<(), ErrorKindView>,
) -> Result<DispatchView, ErrorKindView> {
    match (command_permission, target, exec_permission) {
        (Err(refusal), _, _) => Err(refusal),
        (Ok(_), LookupView::Builtin, _) => Ok(DispatchView::Builtin),
        (Ok(_), LookupView::NotFound, _) => Err(ErrorKindView::CommandNotFound(name)),
        (Ok(_), LookupView::Found(_), Err(refusal)) => Err(refusal),
        (Ok(_), LookupView::Found(program), Ok(_)) => Ok(DispatchView::Spawn(program, args)),
    }
}

/// Concludes the dispatch of a command from what is permitted. See [`concluded`].
pub fn conclude(
    name: &str,
    args: Vec<String>,
    target: Lookup,
    command_permission: Result<(), ErrorKind>,
    exec_permission: Result<(), ErrorKind>,
) -> (res: Result<Dispatch, ErrorKind>)
    ensures
        result_view(res) == concluded(
            name@,
            args.deep_view(),
            target@,
            result_view(command_permission),
            result_view(exec_permission),
        ),
        command_permission is Err ==> res is Err && res->Err_0 == command_permission->Err_0,
        command_permission is Ok && target is Found && exec_permission is Err ==> res is Err
            && res->Err_0 == exec_permission->Err_0,
{
    if let Err(refusal) = command_permission {
        return Err(refusal);
    }
    match target {
        Lookup::Builtin => Ok(Dispatch::Builtin),
        Lookup::NotFound => Err(ErrorKind::CommandNotFound(name.to_owned())),
        Lookup::Found(program) => match exec_permission {
            Err(refusal) => Err(refusal),
            Ok(_) => Ok(Dispatch::Spawn(program, args)),
        },
    }
}

/// The outcome of dispatching a command, given what its name stands for and what the
/// interceptor decides about the command and, where it comes to that, about the program.
pub open spec fn dispatched(
    name: Seq<char>,
    args: Seq<Seq<char>>,
    target: LookupView,
    command_decision: CommandDecision,
    exec_decision: ExecDecision,
) -> Result<DispatchView, ErrorKindView> {
    concluded(
        name,
        args,
        target,
        command_ruling_of(name, command_decision),
        exec_ruling_of(readable(target->Found_0), exec_decision),
    )
}

/// Whether the interceptor may give these two decisions while a command is dispatched. It is
/// asked about the program only where there is one and the command was allowed.
pub open spec fn dispatch_verdicts<CI: CommandInterceptor>(
    interceptor: CI,
    name: Seq<char>,
    args: Seq<Seq<char>>,
    target: LookupView,
    command_decision: CommandDecision,
    exec_decision: ExecDecision,
) -> bool {
    &&& command_verdict(interceptor, name, command_decision)
    &&& command_decision is Allow && target is Found ==> exec_verdict(
        interceptor,
        readable(target->Found_0),
        args,
        exec_decision,
    )
}

/// Dispatches a command: asks the interceptor about the command, finds out what its name
/// stands for and, where that is a program, asks the interceptor about the program.
///
/// `lookup` is what a search for the name turns up; it counts only for names without a path
/// separator.
pub fn dispatch<SE: ShellExtensions>(
    shell: &Shell<SE>,
    name: &str,
    args: Vec<String>,
    lookup: Lookup,
) -> (res: Result<Dispatch, ErrorKind>)
    ensures
        exists|command_decision: CommandDecision, exec_decision: ExecDecision| #[trigger]
            dispatch_verdicts(
                shell.interceptor(),
                name@,
                args.deep_view(),
                target(name@, lookup@),
                command_decision,
                exec_decision,
            ) && result_view(res) == dispatched(
                name@,
                args.deep_view(),
                target(name@, lookup@),
                command_decision,
                exec_decision,
            ),
{
    let decision = shell.command_interceptor().before_command(name);
    assert(command_verdict(shell.interceptor(), name@, decision));
    let ghost command_decision = decision;
    let ghost mut exec_decision = ExecDecision::Allow;
    let ghost goal = target(name@, lookup@);
    let ghost words = args.deep_view();
    let command_permission = command_ruling(name, decision);
    let res = match (resolve_target(name, lookup), command_permission) {
        (Lookup::Found(program), Ok(_)) => {
            let request = ExecRequest {
                name: name.to_owned(),
                program,
                argv0: name.to_owned(),
                args,
            };
            let exec_permission = authorize_execution(shell, &request);
            proof {
                exec_decision =
                choose|decision: ExecDecision| #[trigger]
                    exec_verdict(
                        shell.interceptor(),
                        readable(request.program@),
                        request.args.deep_view(),
                        decision,
                    ) && result_view(exec_permission) == exec_ruling_of(
                        readable(request.program@),
                        decision,
                    );
            }
            let found = Lookup::Found(request.program);
            conclude(name, request.args, found, Ok(()), exec_permission)
        },
        (target, command_permission) => conclude(name, args, target, command_permission, Ok(())),
    };
    assert(dispatch_verdicts(
        shell.interceptor(),
        name@,
        words,
        goal,
        command_decision,
        exec_decision,
    ));
    res
}

/// What an interceptor's decision about opening a file means for it.
pub open spec fn open_ruling_of(decision: OpenDecision) -> Result<(), ErrorKindView> {
    match decision {
        OpenDecision::Allow => Ok(()),
        OpenDecision::Deny(reason) => Err(
            ErrorKindView::Io(
                IoErrorView { kind: IoErrorKind::PermissionDenied, text: reason@ },
            ),
        ),
    }
}

/// Turns a decision about opening a file into permission or the error of a refused opening.
pub fn open_ruling(decision: OpenDecision) -> (res: Result<(), ErrorKind>)
    ensures
        result_view(res) == open_ruling_of(decision),
{
    match decision {
        OpenDecision::Allow => Ok(()),
        OpenDecision::Deny(reason) => Err(
            ErrorKind::Io(IoError { kind: IoErrorKind::PermissionDenied, text: reason }),
        ),
    }
}

/// Asks the shell's interceptor about opening a file: it is shown the path and whether the
/// file may be written, and its decision stands.
pub fn authorize_open<SE: ShellExtensions>(shell: &Shell<SE>, path: &[u8], write: bool) -> (res:
    Result<(), ErrorKind>)
    ensures
        exists|decision: OpenDecision| #[trigger]
            open_verdict(shell.interceptor(), path@, write, decision) && result_view(res)
                == open_ruling_of(decision),
{
    let decision = shell.command_interceptor().before_open(path, write);
    assert(open_verdict(shell.interceptor(), path@, write, decision));
    open_ruling(decision)
}

/// Nothing is spawned that the interceptor has not allowed: where a command comes to a spawn,
/// the interceptor has allowed the command and, shown the program's path as text and the very
/// arguments of the spawn, the program.
pub proof fn spawned_programs_were_allowed<CI: CommandInterceptor>(
    interceptor: CI,
    name: Seq<char>,
    args: Seq<Seq<char>>,
    target: LookupView,
    command_decision: CommandDecision,
    exec_decision: ExecDecision,
    program: Seq<u8>,
    spawn_args: Seq<Seq<char>>,
)
    requires
        dispatch_verdicts(interceptor, name, args, target, command_decision, exec_decision),
        dispatched(name, args, target, command_decision, exec_decision) == Ok::<
            DispatchView,
            ErrorKindView,
        >(DispatchView::Spawn(program, spawn_args)),
    ensures
        command_verdict(interceptor, name, CommandDecision::Allow),
        exec_verdict(interceptor, readable(program), spawn_args, ExecDecision::Allow),
{
}

/// A program that the interceptor always refuses is never spawned with these arguments,
/// whatever the command is called and however its name was found.
pub proof fn denied_programs_never_run<CI: CommandInterceptor>(
    interceptor: CI,
    name: Seq<char>,
    args: Seq<Seq<char>>,
    target: LookupView,
    command_decision: CommandDecision,
    exec_decision: ExecDecision,
    program: Seq<u8>,
)
    requires
        dispatch_verdicts(interceptor, name, args, target, command_decision, exec_decision),
        !exec_verdict(interceptor, readable(program), args, ExecDecision::Allow),
    ensures
        dispatched(name, args, target, command_decision, exec_decision) != Ok::<
            DispatchView,
            ErrorKindView,
        >(DispatchView::Spawn(program, args)),
{
}

/// A name with a path separator cannot slip past the interceptor: whatever a search for it
/// would turn up, it stands for the program at that path, and the interceptor is shown the
/// path as written.
pub proof fn paths_are_shown_as_written(name: Seq<char>, lookup: LookupView)
    requires
        name.contains('/'),
    ensures
        target(name, lookup) == LookupView::Found(encode_utf8(name)),
        readable(encode_utf8(name)) == name,
{
    vstd::utf8::encode_utf8_valid_utf8(name);
    vstd::utf8::encode_utf8_decode_utf8(name);
}

/// A refused command is not looked at any further: neither what its name stands for nor what
/// the interceptor would say of a program changes the outcome.
pub proof fn command_denial_comes_first(
    name: Seq<char>,
    args: Seq<Seq<char>>,
    target: LookupView,
    reason: String,
    exec_decision: ExecDecision,
)
    ensures
        dispatched(name, args, target, CommandDecision::Deny(reason), exec_decision) == Err::<
            DispatchView,
            ErrorKindView,
        >(ErrorKindView::CommandDenied(name, reason@)),
{
}

/// With the default interceptor every command that exists is dispatched, and every program is
/// spawned as it was found.
pub proof fn default_interceptor_refuses_no_command(
    interceptor: DefaultCommandInterceptor,
    name: Seq<char>,
    args: Seq<Seq<char>>,
    target: LookupView,
    command_decision: CommandDecision,
    exec_decision: ExecDecision,
)
    requires
        dispatch_verdicts(interceptor, name, args, target, command_decision, exec_decision),
    ensures
        dispatched(name, args, target, command_decision, exec_decision) == match target {
            LookupView::Builtin => Ok(DispatchView::Builtin),
            LookupView::Found(program) => Ok(DispatchView::Spawn(program, args)),
            LookupView::NotFound => Err(ErrorKindView::CommandNotFound(name)),
        },
{
    default_interceptor_allows_everything(interceptor);
}

/// A name stands for what it says: one without a path separator for exactly what the search
/// turned up, to the byte of the path, and one with a path separator for the program at the path
/// as written, whatever the search turned up.
pub proof fn names_stand_for_what_was_found(name: &str, lookup: Lookup, res: Lookup)
    requires
        call_ensures(resolve_target, (name, lookup), res),
    ensures
        !name@.contains('/') && lookup is Builtin ==> res is Builtin,
        !name@.contains('/') && lookup is NotFound ==> res is NotFound,
        !name@.contains('/') && lookup is Found ==> res is Found && res->Found_0@
            == lookup->Found_0@,
        name@.contains('/') ==> res is Found && res->Found_0@ == encode_utf8(name@),
{
}

/// A decision about a command is carried out to the letter: an allowed command may go on, and a
/// refused one fails under its own name with the very reason given.
pub proof fn command_rulings_follow_the_decision(
    name: &str,
    decision: CommandDecision,
    res: Result<(), ErrorKind>,
)
    requires
        call_ensures(command_ruling, (name, decision), res),
    ensures
        decision is Allow <==> res is Ok,
        decision matches CommandDecision::Deny(reason) ==> {
            &&& res->Err_0 is CommandDenied
            &&& res->Err_0->CommandDenied_0@ == name@
            &&& res->Err_0->CommandDenied_1@ == reason@
        },
{
}

/// A decision about a program is carried out to the letter: an allowed program may be started,
/// and a refused one fails under its own path with the very reason given.
pub proof fn exec_rulings_follow_the_decision(
    program: String,
    decision: ExecDecision,
    res: Result<(), ErrorKind>,
)
    requires
        call_ensures(exec_ruling, (program, decision), res),
    ensures
        decision is Allow <==> res is Ok,
        decision matches ExecDecision::Deny(reason) ==> {
            &&& res->Err_0 is ExecDenied
            &&& res->Err_0->ExecDenied_0@ == program@
            &&& res->Err_0->ExecDenied_1@ == reason@
        },
{
}

/// An opening goes ahead exactly where it was allowed: every refusal, for whatever reason, is an
/// error of the operating system's kind "permission denied" with that reason as its text.
pub proof fn open_rulings_follow_the_decision(decision: OpenDecision, res: Result<(), ErrorKind>)
    requires
        call_ensures(open_ruling, (decision,), res),
    ensures
        decision is Allow <==> res is Ok,
        decision matches OpenDecision::Deny(reason) ==> {
            &&& res->Err_0 is Io
            &&& res->Err_0->Io_0.kind == IoErrorKind::PermissionDenied
            &&& res->Err_0->Io_0.text@ == reason@
        },
{
}

/// Whether a file is opened is up to the interceptor: where the opening goes ahead, the hook was
/// asked about this very path and this very intent and said yes; where it does not, the hook
/// said no, and the error is "permission denied" with the hook's own reason.
pub proof fn openings_follow_the_interceptor<SE: ShellExtensions>(
    shell: Shell<SE>,
    path: &[u8],
    write: bool,
    res: Result<(), ErrorKind>,
)
    requires
        call_ensures(authorize_open::<SE>, (&shell, path, write), res),
    ensures
        res is Ok ==> exists|shown: &[u8]|
            shown@ == path@ && #[trigger] call_ensures(
                SE::CommandInterceptor::before_open,
                (&shell.interceptor(), shown, write),
                OpenDecision::Allow,
            ),
        res is Err ==> {
            &&& res->Err_0 is Io
            &&& res->Err_0->Io_0.kind == IoErrorKind::PermissionDenied
            &&& exists|shown: &[u8], reason: String|
                shown@ == path@ && reason@ == res->Err_0->Io_0.text@ && #[trigger] call_ensures(
                    SE::CommandInterceptor::before_open,
                    (&shell.interceptor(), shown, write),
                    OpenDecision::Deny(reason),
                )
        },
{
}

/// A file whose opening the interceptor always refuses is never opened, and one whose opening it
/// always allows is never refused.
pub proof fn refused_files_stay_shut<SE: ShellExtensions>(
    shell: Shell<SE>,
    path: &[u8],
    write: bool,
    res: Result<(), ErrorKind>,
)
    requires
        call_ensures(authorize_open::<SE>, (&shell, path, write), res),
    ensures
        (forall|shown: &[u8], decision: OpenDecision|
            shown@ == path@ && #[trigger] call_ensures(
                SE::CommandInterceptor::before_open,
                (&shell.interceptor(), shown, write),
                decision,
            ) ==> decision is Deny) ==> res is Err,
        (forall|shown: &[u8], decision: OpenDecision|
            shown@ == path@ && #[trigger] call_ensures(
                SE::CommandInterceptor::before_open,
                (&shell.interceptor(), shown, write),
                decision,
            ) ==> decision is Allow) ==> res is Ok,
{
}

/// Whether a program is authorized is up to the interceptor: the hook is asked about the
/// program's path as text and about these very arguments, in their order, and what it says is
/// what comes out, with its own reason where it says no.
pub proof fn authorizations_follow_the_interceptor<SE: ShellExtensions>(
    shell: Shell<SE>,
    request: ExecRequest,
    res: Result<(), ErrorKind>,
)
    requires
        call_ensures(authorize_execution::<SE>, (&shell, &request), res),
    ensures
        res is Ok ==> exists|shown: &str, words: &[String]|
            shown@ == readable(request.program@) && words.deep_view() == request.args.deep_view()
                && #[trigger] call_ensures(
                SE::CommandInterceptor::before_exec,
                (&shell.interceptor(), shown, words),
                ExecDecision::Allow,
            ),
        res is Err ==> {
            &&& res->Err_0 is ExecDenied
            &&& res->Err_0->ExecDenied_0@ == readable(request.program@)
            &&& exists|shown: &str, words: &[String], reason: String|
                shown@ == readable(request.program@) && words.deep_view()
                    == request.args.deep_view() && reason@ == res->Err_0->ExecDenied_1@
                    && #[trigger] call_ensures(
                    SE::CommandInterceptor::before_exec,
                    (&shell.interceptor(), shown, words),
                    ExecDecision::Deny(reason),
                )
        },
{
}

/// A refusal of the command comes out as it is, whatever else is known; then a builtin is run
/// and a missing command reported under its name, whatever was said of a program; and a program
/// is spawned with all its arguments exactly where it is permitted, and otherwise its refusal
/// comes out as it is, whatever the arguments are.
pub proof fn refusals_come_out_unchanged(
    name: &str,
    args: Vec<String>,
    target: Lookup,
    command_permission: Result<(), ErrorKind>,
    exec_permission: Result<(), ErrorKind>,
    res: Result<Dispatch, ErrorKind>,
)
    requires
        call_ensures(conclude, (name, args, target, command_permission, exec_permission), res),
    ensures
        command_permission is Err ==> res is Err && res->Err_0 == command_permission->Err_0,
        command_permission is Ok && target is Builtin ==> res is Ok && res->Ok_0 is Builtin,
        command_permission is Ok && target is NotFound ==> {
            &&& res is Err && res->Err_0 is CommandNotFound
            &&& res->Err_0->CommandNotFound_0@ == name@
        },
        command_permission is Ok && target is Found && exec_permission is Err ==> res is Err
            && res->Err_0 == exec_permission->Err_0,
        command_permission is Ok && target is Found && exec_permission is Ok ==> {
            &&& res is Ok && res->Ok_0 is Spawn
            &&& res->Ok_0->Spawn_0@ == target->Found_0@
            &&& res->Ok_0->Spawn_1.deep_view() == args.deep_view()
        },
{
}

/// What is spawned is what the command's name stands for, with the arguments of the command; and
/// before that, the interceptor has allowed the command under its name and, shown the program's
/// path as text and those arguments, the program.
pub proof fn spawns_are_authorized_and_exact<SE: ShellExtensions>(
    shell: Shell<SE>,
    name: &str,
    args: Vec<String>,
    lookup: Lookup,
    program: Vec<u8>,
    words: Vec<String>,
)
    requires
        call_ensures(
            dispatch::<SE>,
            (&shell, name, args, lookup),
            Ok::<Dispatch, ErrorKind>(Dispatch::Spawn(program, words)),
        ),
    ensures
        name@.contains('/') ==> program@ == encode_utf8(name@),
        !name@.contains('/') ==> lookup is Found && program@ == lookup->Found_0@,
        words.deep_view() == args.deep_view(),
        exists|shown: &str|
            shown@ == name@ && #[trigger] call_ensures(
                SE::CommandInterceptor::before_command,
                (&shell.interceptor(), shown),
                CommandDecision::Allow,
            ),
        exists|shown: &str, seen: &[String]|
            shown@ == readable(program@) && seen.deep_view() == args.deep_view()
                && #[trigger] call_ensures(
                SE::CommandInterceptor::before_exec,
                (&shell.interceptor(), shown, seen),
                ExecDecision::Allow,
            ),
{
}

/// The shell runs a builtin only where the interceptor has allowed the command, and only for a
/// name without a path separator that the search found to be one.
pub proof fn builtins_are_allowed_commands<SE: ShellExtensions>(
    shell: Shell<SE>,
    name: &str,
    args: Vec<String>,
    lookup: Lookup,
)
    requires
        call_ensures(
            dispatch::<SE>,
            (&shell, name, args, lookup),
            Ok::<Dispatch, ErrorKind>(Dispatch::Builtin),
        ),
    ensures
        !name@.contains('/'),
        lookup is Builtin,
        exists|shown: &str|
            shown@ == name@ && #[trigger] call_ensures(
                SE::CommandInterceptor::before_command,
                (&shell.interceptor(), shown),
                CommandDecision::Allow,
            ),
{
}

/// Each failure of a dispatch has the one cause that it names. "Command denied" comes out only
/// where the hook for commands has refused this name, with that refusal's reason. "Exec denied"
/// comes out only where the command was allowed and the hook for programs, shown the path that
/// the name stands for and the arguments, has refused, with that refusal's reason. "Not found"
/// comes out only for an allowed command without a path separator that the search did not find.
/// Nothing else comes out.
pub proof fn failures_name_their_cause<SE: ShellExtensions>(
    shell: Shell<SE>,
    name: &str,
    args: Vec<String>,
    lookup: Lookup,
    error: ErrorKind,
)
    requires
        call_ensures(
            dispatch::<SE>,
            (&shell, name, args, lookup),
            Err::<Dispatch, ErrorKind>(error),
        ),
    ensures
        error is CommandDenied || error is ExecDenied || error is CommandNotFound,
        error matches ErrorKind::CommandDenied(denied, why) ==> {
            &&& denied@ == name@
            &&& exists|shown: &str, reason: String|
                shown@ == name@ && reason@ == why@ && #[trigger] call_ensures(
                    SE::CommandInterceptor::before_command,
                    (&shell.interceptor(), shown),
                    CommandDecision::Deny(reason),
                )
        },
        !(error is CommandDenied) ==> exists|shown: &str|
            shown@ == name@ && #[trigger] call_ensures(
                SE::CommandInterceptor::before_command,
                (&shell.interceptor(), shown),
                CommandDecision::Allow,
            ),
        error matches ErrorKind::ExecDenied(denied, why) ==> {
            &&& name@.contains('/') ==> denied@ == name@
            &&& !name@.contains('/') ==> lookup is Found && denied@ == readable(
                lookup->Found_0@,
            )
            &&& exists|shown: &str, seen: &[String], reason: String|
                shown@ == denied@ && seen.deep_view() == args.deep_view() && reason@ == why@
                    && #[trigger] call_ensures(
                    SE::CommandInterceptor::before_exec,
                    (&shell.interceptor(), shown, seen),
                    ExecDecision::Deny(reason),
                )
        },
        error matches ErrorKind::CommandNotFound(missing) ==> {
            &&& missing@ == name@
            &&& !name@.contains('/')
            &&& lookup is NotFound
        },
{
    vstd::utf8::encode_utf8_valid_utf8(name@);
    vstd::utf8::encode_utf8_decode_utf8(name@);
}

/// A command that the interceptor always refuses fails as refused, under its name and with the
/// reason given, whatever its name stands for and whatever its arguments are.
pub proof fn refused_commands_are_never_dispatched<SE: ShellExtensions>(
    shell: Shell<SE>,
    name: &str,
    args: Vec<String>,
    lookup: Lookup,
    reason: Seq<char>,
    res: Result<Dispatch, ErrorKind>,
)
    requires
        call_ensures(dispatch::<SE>, (&shell, name, args, lookup), res),
        forall|shown: &str, decision: CommandDecision|
            shown@ == name@ && #[trigger] call_ensures(
                SE::CommandInterceptor::before_command,
                (&shell.interceptor(), shown),
                decision,
            ) ==> decision is Deny && decision->Deny_0@ == reason,
    ensures
        res is Err && res->Err_0 is CommandDenied,
        res->Err_0->CommandDenied_0@ == name@,
        res->Err_0->CommandDenied_1@ == reason,
{
}

/// An allowed command is never lost: a builtin is run, a name that nothing has is reported as
/// such, and whatever stands for a program comes to a spawn or to a refusal of the program.
pub proof fn allowed_commands_are_dispatched<SE: ShellExtensions>(
    shell: Shell<SE>,
    name: &str,
    args: Vec<String>,
    lookup: Lookup,
    res: Result<Dispatch, ErrorKind>,
)
    requires
        call_ensures(dispatch::<SE>, (&shell, name, args, lookup), res),
        forall|shown: &str, decision: CommandDecision|
            shown@ == name@ && #[trigger] call_ensures(
                SE::CommandInterceptor::before_command,
                (&shell.interceptor(), shown),
                decision,
            ) ==> decision is Allow,
    ensures
        !name@.contains('/') && lookup is Builtin ==> res is Ok && res->Ok_0 is Builtin,
        !name@.contains('/') && lookup is NotFound ==> {
            &&& res is Err && res->Err_0 is CommandNotFound
            &&& res->Err_0->CommandNotFound_0@ == name@
        },
        name@.contains('/') || lookup is Found ==> {
            ||| res is Ok && res->Ok_0 is Spawn
            ||| res is Err && res->Err_0 is ExecDenied
        },
{
}

/// A program that the interceptor always refuses fails as refused, under its path as text and
/// with the very reason given, however many arguments it has and whether it was found on the
/// `PATH` or written as a path; one that the interceptor always allows is spawned at that path
/// with those arguments.
pub proof fn programs_run_as_the_interceptor_says<SE: ShellExtensions>(
    shell: Shell<SE>,
    name: &str,
    args: Vec<String>,
    lookup: Lookup,
    program: Seq<u8>,
    reason: Option<Seq<char>>,
    res: Result<Dispatch, ErrorKind>,
)
    requires
        call_ensures(dispatch::<SE>, (&shell, name, args, lookup), res),
        name@.contains('/') ==> program == encode_utf8(name@),
        !name@.contains('/') ==> lookup is Found && program == lookup->Found_0@,
        forall|shown: &str, decision: CommandDecision|
            shown@ == name@ && #[trigger] call_ensures(
                SE::CommandInterceptor::before_command,
                (&shell.interceptor(), shown),
                decision,
            ) ==> decision is Allow,
        forall|shown: &str, seen: &[String], decision: ExecDecision|
            shown@ == readable(program) && seen.deep_view() == args.deep_view()
                && #[trigger] call_ensures(
                SE::CommandInterceptor::before_exec,
                (&shell.interceptor(), shown, seen),
                decision,
            ) ==> match reason {
                Some(why) => decision is Deny && decision->Deny_0@ == why,
                None => decision is Allow,
            },
    ensures
        reason is None ==> {
            &&& res is Ok && res->Ok_0 is Spawn
            &&& res->Ok_0->Spawn_0@ == program
            &&& res->Ok_0->Spawn_1.deep_view() == args.deep_view()
        },
        reason is Some ==> {
            &&& res is Err && res->Err_0 is ExecDenied
            &&& res->Err_0->ExecDenied_0@ == readable(program)
            &&& res->Err_0->ExecDenied_1@ == reason->Some_0
        },
{
}

/// With the default interceptor dispatch is the search and nothing more: a name without a path
/// separator runs the builtin or spawns the program that was found, to the byte of its path and
/// with all its arguments, a path is spawned as written, and what nothing has the name of is not
/// found.
pub proof fn default_dispatch_runs_what_was_found<EF: ErrorFormatter>(
    shell: Shell<ShellExtensionsImpl<EF, DefaultCommandInterceptor>>,
    name: &str,
    args: Vec<String>,
    lookup: Lookup,
    res: Result<Dispatch, ErrorKind>,
)
    requires
        call_ensures(
            dispatch::<ShellExtensionsImpl<EF, DefaultCommandInterceptor>>,
            (&shell, name, args, lookup),
            res,
        ),
    ensures
        name@.contains('/') || lookup is Found ==> {
            &&& res is Ok && res->Ok_0 is Spawn
            &&& res->Ok_0->Spawn_0@ == if name@.contains('/') {
                encode_utf8(name@)
            } else {
                lookup->Found_0@
            }
            &&& res->Ok_0->Spawn_1.deep_view() == args.deep_view()
        },
        !name@.contains('/') && lookup is Builtin ==> res is Ok && res->Ok_0 is Builtin,
        !name@.contains('/') && lookup is NotFound ==> {
            &&& res is Err && res->Err_0 is CommandNotFound
            &&& res->Err_0->CommandNotFound_0@ == name@
        },
{
    default_interceptor_allows_everything(shell.interceptor());
}

/// A loop over a program that the interceptor refuses makes every attempt: each one fails alone,
/// whatever its arguments, and after each the loop goes on with "cannot execute".
pub proof fn refused_programs_do_not_end_a_loop<SE: ShellExtensions>(
    shell: Shell<SE>,
    name: &str,
    args: Seq<Vec<String>>,
    lookup: Lookup,
    attempts: Seq<Result<Dispatch, ErrorKind>>,
    runs: Seq<ListRun>,
)
    requires
        attempts.len() == args.len(),
        runs.len() == args.len() + 1,
        name@.contains('/') || lookup is Found,
        call_ensures(ListRun::start, (), runs[0]),
        forall|i: int|
            0 <= i < args.len() ==> #[trigger] call_ensures(
                dispatch::<SE>,
                (&shell, name, args[i], lookup),
                attempts[i],
            ),
        forall|i: int|
            0 <= i < args.len() && (#[trigger] attempts[i]) is Err ==> call_ensures(
                ListRun::after,
                (runs[i], Err::<ExecutionExitCode, ErrorKind>(attempts[i]->Err_0)),
                runs[i + 1],
            ),
        forall|shown: &str, decision: CommandDecision|
            shown@ == name@ && #[trigger] call_ensures(
                SE::CommandInterceptor::before_command,
                (&shell.interceptor(), shown),
                decision,
            ) ==> decision is Allow,
        forall|shown: &str, seen: &[String], decision: ExecDecision| #[trigger]
            call_ensures(
                SE::CommandInterceptor::before_exec,
                (&shell.interceptor(), shown, seen),
                decision,
            ) ==> decision is Deny,
    ensures
        forall|i: int|
            0 <= i < args.len() ==> (#[trigger] attempts[i]) is Err && attempts[i]->Err_0
                is ExecDenied,
        forall|i: int|
            0 < i <= args.len() ==> #[trigger] runs[i] == ListRun::Going(
                ExecutionExitCode::CannotExecute,
            ),
    decreases args.len(),
{
    if args.len() > 0 {
        let last = args.len() - 1;
        assert(call_ensures(dispatch::<SE>, (&shell, name, args[last], lookup), attempts[last]));
        assert(args.drop_last().len() == last);
        assert forall|i: int| 0 <= i < last implies #[trigger] call_ensures(
            dispatch::<SE>,
            (&shell, name, args.drop_last()[i], lookup),
            attempts.drop_last()[i],
        ) by {
            assert(args.drop_last()[i] == args[i]);
            assert(call_ensures(dispatch::<SE>, (&shell, name, args[i], lookup), attempts[i]));
        }
        refused_programs_do_not_end_a_loop(
            shell,
            name,
            args.drop_last(),
            lookup,
            attempts.drop_last(),
            runs.drop_last(),
        );
        assert(runs[last] == runs.drop_last()[last]);
        assert(runs[last] is Going);
        assert(runs[last + 1] == ListRun::Going(ExecutionExitCode::CannotExecute));
        assert forall|i: int| 0 <= i < args.len() implies (#[trigger] attempts[i]) is Err
            && attempts[i]->Err_0 is ExecDenied by {
            if i < last {
                assert(attempts.drop_last()[i] == attempts[i]);
            }
        }
        assert forall|i: int| 0 < i <= args.len() implies #[trigger] runs[i] == ListRun::Going(
            ExecutionExitCode::CannotExecute,
        ) by {
            if i <= last {
                assert(runs.drop_last()[i] == runs[i]);
            }
        }
    }
}

} // verus!
