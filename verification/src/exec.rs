//! The `exec` builtin: replaces the shell with a program.

use vstd::prelude::*;
use vstd::utf8::encode_utf8;
use crate::commands::{authorize_execution, exec_ruling_of, ExecRequest};
use crate::error::{result_view, ErrorKind, ErrorKindView, IoError, IoErrorKind};
use crate::extensions::{
    confined_verdict, default_interceptor_allows_everything, exec_verdict, CommandInterceptor,
    DefaultCommandInterceptor, ErrorFormatter, ExecDecision, ShellExtensions, ShellExtensionsImpl,
};
use crate::outcome::ExecutionExitCode;
use crate::shell::Shell;
use crate::text::{copy_from, readable, texts_of_a_copy};

verus! {

/// Exec the provided command.
#[derive(Debug, PartialEq, Eq)]
pub struct ExecCommand {
    /// Pass given name as zeroth argument to command.
    pub name_for_argv0: Option<String>,
    /// Exec command with an empty environment.
    pub empty_environment: bool,
    /// Exec command as a login shell.
    pub exec_as_login: bool,
    /// Command and args.
    pub args: Vec<String>,
}

/// An [`ExecCommand`] with its texts as characters.
pub struct ExecCommandView {
    pub name_for_argv0: Option<Seq<char>>,
    pub empty_environment: bool,
    pub exec_as_login: bool,
    pub args: Seq<Seq<char>>,
}

impl View for ExecCommand {
    type V = ExecCommandView;

    open spec fn view(&self) -> ExecCommandView {
        ExecCommandView {
            name_for_argv0: self.name_for_argv0.deep_view(),
            empty_environment: self.empty_environment,
            exec_as_login: self.exec_as_login,
            args: self.args.deep_view(),
        }
    }
}

/// A program together with all that it is started with.
#[derive(Debug, PartialEq, Eq)]
pub struct Launch {
    /// The bytes of the path or name of the program.
    pub program: Vec<u8>,
    /// The zeroth argument.
    pub argv0: String,
    /// The arguments, excluding the zeroth.
    pub args: Vec<String>,
    /// Whether the program starts with an empty environment.
    pub empty_environment: bool,
}

/// A [`Launch`] with its contents as sequences.
pub struct LaunchView {
    pub program: Seq<u8>,
    pub argv0: Seq<char>,
    pub args: Seq<Seq<char>>,
    pub empty_environment: bool,
}

impl View for Launch {
    type V = LaunchView;

    open spec fn view(&self) -> LaunchView {
        LaunchView {
            program: self.program@,
            argv0: self.argv0@,
            args: self.args.deep_view(),
            empty_environment: self.empty_environment,
        }
    }
}

/// What the shell does next for an `exec`.
#[derive(Debug, PartialEq, Eq)]
pub enum ExecStep {
    /// Apply the redirections of the builtin to the shell itself, and succeed.
    ApplyRedirections,
    /// Run these words with the `command` builtin, and return.
    Delegate(Vec<String>),
    /// Resolve the program of this name, then authorize it.
    Resolve(String),
    /// Replace the shell with this program.
    Launch(Launch),
}

/// An [`ExecStep`] with its contents as sequences.
pub enum ExecStepView {
    ApplyRedirections,
    Delegate(Seq<Seq<char>>),
    Resolve(Seq<char>),
    Launch(LaunchView),
}

impl View for ExecStep {
    type V = ExecStepView;

    open spec fn view(&self) -> ExecStepView {
        match *self {
            ExecStep::ApplyRedirections => ExecStepView::ApplyRedirections,
            ExecStep::Delegate(words) => ExecStepView::Delegate(words.deep_view()),
            ExecStep::Resolve(name) => ExecStepView::Resolve(name@),
            ExecStep::Launch(launch) => ExecStepView::Launch(launch@),
        }
    }
}

/// A resolved path, if there is one, as a sequence of bytes.
pub open spec fn path_view(path: Option<Vec<u8>>) -> Option<Seq<u8>> {
    match path {
        Some(bytes) => Some(bytes@),
        None => None,
    }
}

impl ExecCommandView {
    /// Whether any option was given.
    pub open spec fn has_options(self) -> bool {
        self.empty_environment || self.exec_as_login || self.name_for_argv0 is Some
    }

    /// The zeroth argument of the program: the name given for it, else the command as
    /// written, with a dash in front for a login shell.
    pub open spec fn argv0(self) -> Seq<char> {
        let name = match self.name_for_argv0 {
            Some(name) => name,
            None => self.args[0],
        };
        if self.exec_as_login {
            "-"@ + name
        } else {
            name
        }
    }

    /// The start of `program` on behalf of this command.
    pub open spec fn launch(self, program: Seq<u8>) -> LaunchView {
        LaunchView {
            program,
            argv0: self.argv0(),
            args: self.args.skip(1),
            empty_environment: self.empty_environment,
        }
    }

    /// The first step of this command.
    ///
    /// In a subshell, replacing the process would replace the parent shell too, so the
    /// command is run as an ordinary one there, which does not support options.
    pub open spec fn plan(self, is_subshell: bool, confined: bool) -> Result<
        ExecStepView,
        ErrorKindView,
    > {
        if self.args.len() == 0 {
            Ok(ExecStepView::ApplyRedirections)
        } else if is_subshell && self.has_options() {
            Err(ErrorKindView::Unimplemented("exec with options in subshell not yet supported"@))
        } else if is_subshell {
            Ok(ExecStepView::Delegate(self.args))
        } else if confined {
            Ok(ExecStepView::Resolve(self.args[0]))
        } else {
            Ok(ExecStepView::Launch(self.launch(encode_utf8(self.args[0]))))
        }
    }

    /// The path put before the interceptor: the resolved one, else the command as written.
    pub open spec fn program(self, resolved: Option<Seq<u8>>) -> Seq<u8> {
        match resolved {
            Some(path) => path,
            None => encode_utf8(self.args[0]),
        }
    }

    /// What follows the interceptor's decision about the program.
    pub open spec fn authorized(self, resolved: Option<Seq<u8>>, decision: ExecDecision) -> Result<
        LaunchView,
        ErrorKindView,
    > {
        match exec_ruling_of(readable(self.program(resolved)), decision) {
            Ok(_) => Ok(self.launch(self.program(resolved))),
            Err(refusal) => Err(refusal),
        }
    }
}

impl ExecCommand {
    /// Whether any option was given.
    fn has_options(&self) -> (res: bool)
        ensures
            res == self@.has_options(),
    {
        self.empty_environment || self.exec_as_login || self.name_for_argv0.is_some()
    }

    /// The zeroth argument of the program. See [`ExecCommandView::argv0`].
    pub fn argv0(&self) -> (res: String)
        requires
            self.args@.len() > 0,
        ensures
            res@ == self@.argv0(),
    {
        let name = match &self.name_for_argv0 {
            Some(name) => name.clone(),
            None => self.args[0].clone(),
        };
        if self.exec_as_login {
            "-".to_string().concat(name.as_str())
        } else {
            name
        }
    }

    /// The start of `program` on behalf of this command.
    pub fn launch(&self, program: Vec<u8>) -> (res: Launch)
        requires
            self.args@.len() > 0,
        ensures
            res@ == self@.launch(program@),
    {
        Launch {
            program,
            argv0: self.argv0(),
            args: copy_from(&self.args, 1),
            empty_environment: self.empty_environment,
        }
    }

    /// The start of `program` on behalf of this command, where it is permitted.
    pub fn launch_permitted(&self, program: Vec<u8>, permission: Result<(), ErrorKind>) -> (res:
        Result<Launch, ErrorKind>)
        requires
            self.args@.len() > 0,
        ensures
            result_view(res) == match permission {
                Ok(_) => Ok(self@.launch(program@)),
                Err(refusal) => Err(refusal@),
            },
            permission is Err ==> res is Err && res->Err_0 == permission->Err_0,
    {
        match permission {
            Ok(_) => Ok(self.launch(program)),
            Err(refusal) => Err(refusal),
        }
    }

    /// The first step of this command. See [`ExecCommandView::plan`].
    pub fn plan(&self, is_subshell: bool, confined: bool) -> (res: Result<ExecStep, ErrorKind>)
        ensures
            result_view(res) == self@.plan(is_subshell, confined),
    {
        if self.args.len() == 0 {
            return Ok(ExecStep::ApplyRedirections);
        }
        if is_subshell {
            if self.has_options() {
                return Err(
                    ErrorKind::Unimplemented("exec with options in subshell not yet supported"),
                );
            }
            let words = copy_from(&self.args, 0);
            assert(words.deep_view() =~= self@.args);
            return Ok(ExecStep::Delegate(words));
        }
        if confined {
            Ok(ExecStep::Resolve(self.args[0].clone()))
        } else {
            Ok(ExecStep::Launch(self.launch(self.args[0].as_str().as_bytes_vec())))
        }
    }

    /// Decides the first step of this command in a shell. The interceptor is asked whether it
    /// confines programs only where the shell would be replaced.
    pub fn execute<SE: ShellExtensions>(&self, shell: &Shell<SE>) -> (res: Result<
        ExecStep,
        ErrorKind,
    >)
        ensures
            exists|confined: bool|
                (self.args@.len() > 0 && !shell.spec_context().is_subshell ==> confined_verdict(
                    shell.interceptor(),
                    confined,
                )) && result_view(res) == #[trigger] self@.plan(
                    shell.spec_context().is_subshell,
                    confined,
                ),
    {
        let is_subshell = shell.is_subshell();
        let mut confined = false;
        if self.args.len() > 0 && !is_subshell {
            confined = shell.command_interceptor().is_confined();
        }
        self.plan(is_subshell, confined)
    }

    /// The request put before the interceptor for this command, where `resolved` is the path
    /// that the program's name was resolved to, if any.
    pub fn request(&self, resolved: Option<Vec<u8>>) -> (res: ExecRequest)
        requires
            self.args@.len() > 0,
        ensures
            res.name@ == self@.args[0],
            res.program@ == self@.program(path_view(resolved)),
            res.argv0@ == self@.argv0(),
            res.args.deep_view() == self@.args.skip(1),
    {
        let program = match resolved {
            Some(path) => path,
            None => self.args[0].as_str().as_bytes_vec(),
        };
        ExecRequest {
            name: self.args[0].clone(),
            program,
            argv0: self.argv0(),
            args: copy_from(&self.args, 1),
        }
    }

    /// Puts the program of a confined `exec` before the shell's interceptor and, where it is
    /// allowed, starts exactly that program.
    pub fn authorize<SE: ShellExtensions>(
        &self,
        shell: &Shell<SE>,
        resolved: Option<Vec<u8>>,
    ) -> (res: Result<Launch, ErrorKind>)
        requires
            self.args@.len() > 0,
        ensures
            exists|decision: ExecDecision| #[trigger]
                exec_verdict(
                    shell.interceptor(),
                    readable(self@.program(path_view(resolved))),
                    self@.args.skip(1),
                    decision,
                ) && result_view(res) == self@.authorized(path_view(resolved), decision),
    {
        let request = self.request(resolved);
        let permission = authorize_execution(shell, &request);
        self.launch_permitted(request.program, permission)
    }
}

/// Reports the failure to replace the shell: a missing program by its exit code, anything else
/// as an error.
pub fn launch_failure(error: IoError) -> (res: Result<ExecutionExitCode, ErrorKind>)
    ensures
        error.kind == IoErrorKind::NotFound ==> res == Ok::<ExecutionExitCode, ErrorKind>(
            ExecutionExitCode::NotFound,
        ),
        error.kind != IoErrorKind::NotFound ==> res == Err::<ExecutionExitCode, ErrorKind>(
            ErrorKind::Io(error),
        ),
{
    if error.kind == IoErrorKind::NotFound {
        Ok(ExecutionExitCode::NotFound)
    } else {
        Err(ErrorKind::Io(error))
    }
}

/// What the interceptor authorized is what runs: an authorized `exec` starts the program that
/// the interceptor was shown and allowed, with the arguments that it was shown.
pub proof fn authorized_program_is_launched<CI: CommandInterceptor>(
    interceptor: CI,
    command: ExecCommandView,
    resolved: Option<Seq<u8>>,
    decision: ExecDecision,
    launch: LaunchView,
)
    requires
        command.args.len() > 0,
        exec_verdict(
            interceptor,
            readable(command.program(resolved)),
            command.args.skip(1),
            decision,
        ),
        command.authorized(resolved, decision) == Ok::<LaunchView, ErrorKindView>(launch),
    ensures
        exec_verdict(interceptor, readable(launch.program), launch.args, ExecDecision::Allow),
{
}

/// The program that is launched is to the byte the path that was authorized: the resolved one
/// or, where nothing was resolved, the command as written.
pub proof fn authorized_path_is_launched(
    command: ExecCommandView,
    resolved: Option<Seq<u8>>,
    decision: ExecDecision,
    launch: LaunchView,
)
    requires
        command.args.len() > 0,
        command.authorized(resolved, decision) == Ok::<LaunchView, ErrorKindView>(launch),
    ensures
        launch.program == command.program(resolved),
        resolved matches Some(path) ==> launch.program == path,
{
}

/// A refused `exec` starts nothing: its outcome is the refusal.
pub proof fn denied_exec_launches_nothing(
    command: ExecCommandView,
    resolved: Option<Seq<u8>>,
    reason: String,
)
    ensures
        command.authorized(resolved, ExecDecision::Deny(reason)) == Err::<
            LaunchView,
            ErrorKindView,
        >(ErrorKindView::ExecDenied(readable(command.program(resolved)), reason@)),
{
}

/// Confinement chooses the program and nothing else: a confined `exec` that is allowed differs
/// from an unconfined one in the program's path alone, and where nothing was resolved, not
/// even in that.
pub proof fn confinement_changes_only_the_program(
    command: ExecCommandView,
    resolved: Option<Seq<u8>>,
)
    requires
        command.args.len() > 0,
    ensures
        command.plan(false, true) == Ok::<ExecStepView, ErrorKindView>(
            ExecStepView::Resolve(command.args[0]),
        ),
        ({
            let unconfined = command.launch(encode_utf8(command.args[0]));
            let confined = command.authorized(resolved, ExecDecision::Allow)->Ok_0;
            &&& command.plan(false, false) == Ok::<ExecStepView, ErrorKindView>(
                ExecStepView::Launch(unconfined),
            )
            &&& command.authorized(resolved, ExecDecision::Allow) is Ok
            &&& confined == (LaunchView { program: confined.program, ..unconfined })
            &&& resolved is None ==> confined == unconfined
        }),
{
}

/// In a shell with the default interceptor `exec` never stops to resolve or authorize.
pub proof fn default_interceptor_does_not_confine(
    interceptor: DefaultCommandInterceptor,
    command: ExecCommandView,
    confined: bool,
)
    requires
        command.args.len() > 0,
        confined_verdict(interceptor, confined),
    ensures
        command.plan(false, confined) == Ok::<ExecStepView, ErrorKindView>(
            ExecStepView::Launch(command.launch(encode_utf8(command.args[0]))),
        ),
{
    default_interceptor_allows_everything(interceptor);
}

/// In a subshell `exec` never replaces the process, whatever the interceptor says.
pub proof fn subshell_is_never_replaced(command: ExecCommandView, confined: bool)
    ensures
        command.plan(true, confined) matches Ok(step) ==> step is ApplyRedirections
            || step is Delegate,
{
}

/// The zeroth argument is the name given for it or, where none is given, the first word of the
/// command, with a dash in front exactly for a login shell. No other word has a say in it.
pub proof fn zeroth_argument_is_the_given_name(command: ExecCommand, argv0: String)
    requires
        command.args@.len() > 0,
        call_ensures(ExecCommand::argv0, (&command,), argv0),
    ensures
        argv0@ == (if command.exec_as_login {
            seq!['-']
        } else {
            seq![]
        }) + (if command.name_for_argv0 is Some {
            command.name_for_argv0->Some_0@
        } else {
            command.args@[0]@
        }),
{
    reveal_strlit("-");
    if !command.exec_as_login {
        assert(argv0@ =~= seq![] + argv0@);
    }
}

/// A launch starts the program that it is made for, under the given name or else the first word
/// of the command, with a dash in front exactly for a login shell, with all the further words in
/// their order, and with an empty environment exactly where that was asked for.
pub proof fn launches_carry_the_command(command: ExecCommand, program: Vec<u8>, launch: Launch)
    requires
        command.args@.len() > 0,
        call_ensures(ExecCommand::launch, (&command, program), launch),
    ensures
        launch.program@ == program@,
        launch.argv0@ == (if command.exec_as_login {
            seq!['-']
        } else {
            seq![]
        }) + (if command.name_for_argv0 is Some {
            command.name_for_argv0->Some_0@
        } else {
            command.args@[0]@
        }),
        launch.args@.len() == command.args@.len() - 1,
        forall|i: int|
            0 <= i < launch.args@.len() ==> (#[trigger] launch.args@[i])@ == command.args@[i + 1]@,
        launch.empty_environment == command.empty_environment,
{
    reveal_strlit("-");
    if !command.exec_as_login {
        assert(launch.argv0@ =~= seq![] + launch.argv0@);
    }
    texts_of_a_copy(launch.args, command.args, 1);
}

/// A permission decides whether there is a launch, and nothing else: with it the launch carries
/// the command, and without it the refusal comes out as it is.
pub proof fn permitted_launches_carry_the_command(
    command: ExecCommand,
    program: Vec<u8>,
    permission: Result<(), ErrorKind>,
    res: Result<Launch, ErrorKind>,
)
    requires
        command.args@.len() > 0,
        call_ensures(ExecCommand::launch_permitted, (&command, program, permission), res),
    ensures
        permission is Err ==> res is Err && res->Err_0 == permission->Err_0,
        permission is Ok ==> res is Ok,
        permission is Ok ==> {
            let launch = res->Ok_0;
            &&& launch.program@ == program@
            &&& launch.argv0@ == (if command.exec_as_login {
                seq!['-']
            } else {
                seq![]
            }) + (if command.name_for_argv0 is Some {
                command.name_for_argv0->Some_0@
            } else {
                command.args@[0]@
            })
            &&& launch.args@.len() == command.args@.len() - 1
            &&& forall|i: int|
                0 <= i < launch.args@.len() ==> (#[trigger] launch.args@[i])@
                    == command.args@[i + 1]@
            &&& launch.empty_environment == command.empty_environment
        },
{
    reveal_strlit("-");
    if permission is Ok {
        let launch = res->Ok_0;
        if !command.exec_as_login {
            assert(launch.argv0@ =~= seq![] + launch.argv0@);
        }
        texts_of_a_copy(launch.args, command.args, 1);
    }
}

/// Without any word `exec` applies its redirections, whatever else holds, and with one it never
/// does.
pub proof fn exec_without_words_applies_redirections(
    command: ExecCommand,
    is_subshell: bool,
    confined: bool,
    res: Result<ExecStep, ErrorKind>,
)
    requires
        call_ensures(ExecCommand::plan, (&command, is_subshell, confined), res),
    ensures
        command.args@.len() == 0 <==> res is Ok && res->Ok_0 is ApplyRedirections,
{
}

/// In a subshell a command without options is run as an ordinary one, with exactly the words
/// given, and any option at all is refused as unsupported; confinement changes nothing there.
pub proof fn exec_in_a_subshell_is_an_ordinary_command(
    command: ExecCommand,
    confined: bool,
    res: Result<ExecStep, ErrorKind>,
)
    requires
        command.args@.len() > 0,
        call_ensures(ExecCommand::plan, (&command, true, confined), res),
    ensures
        res is Err <==> command.empty_environment || command.exec_as_login
            || command.name_for_argv0 is Some,
        res is Err ==> {
            &&& res->Err_0 is Unimplemented
            &&& res->Err_0->Unimplemented_0@ == "exec with options in subshell not yet supported"@
        },
        res is Ok ==> {
            let words = res->Ok_0->Delegate_0;
            &&& res->Ok_0 is Delegate
            &&& words@.len() == command.args@.len()
            &&& forall|i: int|
                0 <= i < words@.len() ==> (#[trigger] words@[i])@ == command.args@[i]@
        },
{
    if res is Ok {
        let words = res->Ok_0->Delegate_0;
        assert(words.deep_view() =~= command.args.deep_view().skip(0));
        texts_of_a_copy(words, command.args, 0);
    }
}

/// Outside of subshells `exec` replaces the shell: where programs are confined the first word is
/// resolved first, and where they are not the first word is launched as written.
pub proof fn exec_resolves_only_where_confined(
    command: ExecCommand,
    confined: bool,
    res: Result<ExecStep, ErrorKind>,
)
    requires
        command.args@.len() > 0,
        call_ensures(ExecCommand::plan, (&command, false, confined), res),
    ensures
        res is Ok,
        confined ==> res->Ok_0 is Resolve && res->Ok_0->Resolve_0@ == command.args@[0]@,
        !confined ==> res->Ok_0 is Launch && res->Ok_0->Launch_0.program@ == encode_utf8(
            command.args@[0]@,
        ),
{
}

/// An `exec` in a shell does what the shell is: a subshell is never replaced, the interceptor
/// has the say on whether the first word is resolved first, and a launch without that is of the
/// first word as written.
pub proof fn exec_follows_the_shell<SE: ShellExtensions>(
    command: ExecCommand,
    shell: Shell<SE>,
    res: Result<ExecStep, ErrorKind>,
)
    requires
        call_ensures(ExecCommand::execute::<SE>, (&command, &shell), res),
    ensures
        command.args@.len() == 0 <==> res is Ok && res->Ok_0 is ApplyRedirections,
        res is Err <==> command.args@.len() > 0 && shell.spec_context().is_subshell && (
        command.empty_environment || command.exec_as_login || command.name_for_argv0 is Some),
        res is Err ==> {
            &&& res->Err_0 is Unimplemented
            &&& res->Err_0->Unimplemented_0@ == "exec with options in subshell not yet supported"@
        },
        res is Ok && command.args@.len() > 0 ==> {
            let step = res->Ok_0;
            &&& shell.spec_context().is_subshell <==> step is Delegate
            &&& step is Delegate ==> step->Delegate_0.deep_view() == command.args.deep_view()
            &&& step is Resolve ==> {
                &&& step->Resolve_0@ == command.args@[0]@
                &&& call_ensures(
                    SE::CommandInterceptor::is_confined,
                    (&shell.interceptor(),),
                    true,
                )
            }
            &&& step is Launch ==> {
                &&& step->Launch_0.program@ == encode_utf8(command.args@[0]@)
                &&& call_ensures(
                    SE::CommandInterceptor::is_confined,
                    (&shell.interceptor(),),
                    false,
                )
            }
        },
{
}

/// However a program comes to replace the shell, whether confined or not, it is started under
/// the given name or else the first word of the command, with a dash in front exactly for a
/// login shell, with all the further words in their order, and with an empty environment exactly
/// where that was asked for.
pub proof fn every_launch_carries_the_command<SE: ShellExtensions>(
    command: ExecCommand,
    shell: Shell<SE>,
    resolved: Option<Vec<u8>>,
    launch: Launch,
)
    requires
        command.args@.len() > 0,
        call_ensures(
            ExecCommand::execute::<SE>,
            (&command, &shell),
            Ok::<ExecStep, ErrorKind>(ExecStep::Launch(launch)),
        ) || call_ensures(
            ExecCommand::authorize::<SE>,
            (&command, &shell, resolved),
            Ok::<Launch, ErrorKind>(launch),
        ),
    ensures
        launch.argv0@ == (if command.exec_as_login {
            seq!['-']
        } else {
            seq![]
        }) + (if command.name_for_argv0 is Some {
            command.name_for_argv0->Some_0@
        } else {
            command.args@[0]@
        }),
        launch.args@.len() == command.args@.len() - 1,
        forall|i: int|
            0 <= i < launch.args@.len() ==> (#[trigger] launch.args@[i])@ == command.args@[i + 1]@,
        launch.empty_environment == command.empty_environment,
{
    reveal_strlit("-");
    if !command.exec_as_login {
        assert(launch.argv0@ =~= seq![] + launch.argv0@);
    }
    texts_of_a_copy(launch.args, command.args, 1);
}

/// The interceptor is asked about the program that the first word was resolved to or, where it
/// was not resolved, about the first word as written, and about the further words; the name under
/// which the program is started goes with the request.
pub proof fn requests_carry_the_command(
    command: ExecCommand,
    resolved: Option<Vec<u8>>,
    request: ExecRequest,
)
    requires
        command.args@.len() > 0,
        call_ensures(ExecCommand::request, (&command, resolved), request),
    ensures
        request.name@ == command.args@[0]@,
        resolved is Some ==> request.program@ == resolved->Some_0@,
        resolved is None ==> request.program@ == encode_utf8(command.args@[0]@),
        request.argv0@ == (if command.exec_as_login {
            seq!['-']
        } else {
            seq![]
        }) + (if command.name_for_argv0 is Some {
            command.name_for_argv0->Some_0@
        } else {
            command.args@[0]@
        }),
        request.args.deep_view() == command.args.deep_view().skip(1),
{
    reveal_strlit("-");
    if !command.exec_as_login {
        assert(request.argv0@ =~= seq![] + request.argv0@);
    }
}

/// A confined `exec` is up to the interceptor. Where it starts a program, that is to the byte
/// the resolved one or, where nothing was resolved, the first word, and the hook, shown its path
/// as text and the further words, has allowed it. Where it does not, the hook was shown the same
/// and has refused, and the refusal names the path and the hook's own reason.
pub proof fn confined_exec_follows_the_interceptor<SE: ShellExtensions>(
    command: ExecCommand,
    shell: Shell<SE>,
    resolved: Option<Vec<u8>>,
    program: Seq<u8>,
    res: Result<Launch, ErrorKind>,
)
    requires
        command.args@.len() > 0,
        resolved is Some ==> program == resolved->Some_0@,
        resolved is None ==> program == encode_utf8(command.args@[0]@),
        call_ensures(ExecCommand::authorize::<SE>, (&command, &shell, resolved), res),
    ensures
        res is Ok ==> res->Ok_0.program@ == program,
        res is Ok ==> exists|shown: &str, words: &[String]|
            shown@ == readable(program) && words.deep_view() == command.args.deep_view().skip(1)
                && #[trigger] call_ensures(
                SE::CommandInterceptor::before_exec,
                (&shell.interceptor(), shown, words),
                ExecDecision::Allow,
            ),
        res is Err ==> {
            &&& res->Err_0 is ExecDenied
            &&& res->Err_0->ExecDenied_0@ == readable(program)
            &&& exists|shown: &str, words: &[String], reason: String|
                shown@ == readable(program) && words.deep_view()
                    == command.args.deep_view().skip(1) && reason@ == res->Err_0->ExecDenied_1@
                    && #[trigger] call_ensures(
                    SE::CommandInterceptor::before_exec,
                    (&shell.interceptor(), shown, words),
                    ExecDecision::Deny(reason),
                )
        },
{
}

/// With the default interceptor an `exec` outside of subshells always launches its first word as
/// written, and a request for authorization is never refused.
pub proof fn default_exec_launches_the_first_word<EF: ErrorFormatter>(
    command: ExecCommand,
    shell: Shell<ShellExtensionsImpl<EF, DefaultCommandInterceptor>>,
    resolved: Option<Vec<u8>>,
    step: Result<ExecStep, ErrorKind>,
    res: Result<Launch, ErrorKind>,
)
    requires
        command.args@.len() > 0,
        !shell.spec_context().is_subshell,
        call_ensures(
            ExecCommand::execute::<ShellExtensionsImpl<EF, DefaultCommandInterceptor>>,
            (&command, &shell),
            step,
        ),
        call_ensures(
            ExecCommand::authorize::<ShellExtensionsImpl<EF, DefaultCommandInterceptor>>,
            (&command, &shell, resolved),
            res,
        ),
    ensures
        step is Ok && step->Ok_0 is Launch,
        step->Ok_0->Launch_0.program@ == encode_utf8(command.args@[0]@),
        res is Ok,
{
    default_interceptor_allows_everything(shell.interceptor());
}

/// A program that is not there is told by the exit code for that; any other failure to replace the
/// shell comes out as the error that it is.
pub proof fn only_missing_programs_have_an_exit_code(
    error: IoError,
    res: Result<ExecutionExitCode, ErrorKind>,
)
    requires
        call_ensures(launch_failure, (error,), res),
    ensures
        res is Ok <==> error.kind is NotFound,
        res is Ok ==> res->Ok_0 is NotFound,
        res is Err ==> res->Err_0 == ErrorKind::Io(error),
{
}

} // verus!
