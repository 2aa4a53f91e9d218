//! Definition of shell behavior traits and defaults.

use vstd::prelude::*;
use crate::shell::ShellContext;

verus! {

/// Trait for static shell extensions. Collects all associated types needed to
/// instantiate a shell into a single containing struct.
pub trait ShellExtensions: Clone + Default + Send + Sync + 'static {
    /// Type of the error behavior implementation.
    type ErrorFormatter: ErrorFormatter;

    /// Type of the command-interceptor implementation. See [`CommandInterceptor`].
    type CommandInterceptor: CommandInterceptor;
}

/// Shell extensions implementation constructed from component types.
pub struct ShellExtensionsImpl<
    EF: ErrorFormatter = DefaultErrorFormatter,
    CI: CommandInterceptor = DefaultCommandInterceptor,
> {
    _marker: std::marker::PhantomData<(EF, CI)>,
}

impl<EF: ErrorFormatter, CI: CommandInterceptor> ShellExtensionsImpl<EF, CI> {
    /// The one value of this type: it carries nothing but the types.
    pub closed spec fn only() -> Self {
        ShellExtensionsImpl { _marker: std::marker::PhantomData }
    }
}

impl<EF: ErrorFormatter, CI: CommandInterceptor> Clone for ShellExtensionsImpl<EF, CI> {
    fn clone(&self) -> (res: Self)
        ensures
            res == *self,
    {
        ShellExtensionsImpl { _marker: std::marker::PhantomData }
    }
}

impl<EF: ErrorFormatter, CI: CommandInterceptor> Default for ShellExtensionsImpl<EF, CI> {
    fn default() -> (res: Self)
        ensures
            res == Self::only(),
    {
        ShellExtensionsImpl { _marker: std::marker::PhantomData }
    }
}

impl<EF: ErrorFormatter, CI: CommandInterceptor> ShellExtensions for ShellExtensionsImpl<EF, CI> {
    type ErrorFormatter = EF;

    type CommandInterceptor = CI;
}

/// Default shell extensions implementation.
/// This is a type alias for the most common shell configuration.
pub type DefaultShellExtensions = ShellExtensionsImpl<
    DefaultErrorFormatter,
    DefaultCommandInterceptor,
>;

/// The standard display of an error.
pub open spec fn default_error_text(error: Seq<char>) -> Seq<char> {
    "error: "@ + error + "\n"@
}

/// Trait for defining shell error behaviors.
pub trait ErrorFormatter: Clone + Default + Send + Sync + 'static {
    /// Format the given error for display within the context of the provided shell.
    ///
    /// # Arguments
    ///
    /// * `error` - The error to format, in words.
    /// * `shell` - The shell context in which the error occurred.
    fn format_error(&self, error: &str, shell: &ShellContext) -> (text: String)
        default_ensures
            text@ == default_error_text(error@),
    {
        let _ = shell;
        "error: ".to_string().concat(error).concat("\n")
    }
}

/// Default shell error behavior implementation.
#[derive(Clone, Copy, Debug, PartialEq, Eq, Structural)]
pub struct DefaultErrorFormatter;

impl Default for DefaultErrorFormatter {
    fn default() -> (res: Self)
        ensures
            res == DefaultErrorFormatter,
    {
        DefaultErrorFormatter
    }
}

impl ErrorFormatter for DefaultErrorFormatter {

}

/// Decision returned by [`CommandInterceptor::before_command`].
#[derive(Debug, PartialEq, Eq)]
pub enum CommandDecision {
    /// Dispatch the command.
    Allow,
    /// Do not dispatch the command; end the whole run with the contained reason.
    Deny(String),
}

impl Clone for CommandDecision {
    fn clone(&self) -> (res: Self)
        ensures
            res == *self,
    {
        match self {
            CommandDecision::Allow => CommandDecision::Allow,
            CommandDecision::Deny(reason) => CommandDecision::Deny(reason.clone()),
        }
    }
}

/// Decision returned by [`CommandInterceptor::before_exec`].
#[derive(Debug, PartialEq, Eq)]
pub enum ExecDecision {
    /// Spawn the command.
    Allow,
    /// Do not spawn the command; fail it with the contained reason.
    Deny(String),
}

impl Clone for ExecDecision {
    fn clone(&self) -> (res: Self)
        ensures
            res == *self,
    {
        match self {
            ExecDecision::Allow => ExecDecision::Allow,
            ExecDecision::Deny(reason) => ExecDecision::Deny(reason.clone()),
        }
    }
}

/// Decision returned by [`CommandInterceptor::before_open`].
#[derive(Debug, PartialEq, Eq)]
pub enum OpenDecision {
    /// Open the file.
    Allow,
    /// Do not open the file; fail the operation with the contained reason.
    Deny(String),
}

impl Clone for OpenDecision {
    fn clone(&self) -> (res: Self)
        ensures
            res == *self,
    {
        match self {
            OpenDecision::Allow => OpenDecision::Allow,
            OpenDecision::Deny(reason) => OpenDecision::Deny(reason.clone()),
        }
    }
}

/// Hook for an embedding host to deny shell operations before they happen.
///
/// The default implementation ([`DefaultCommandInterceptor`]) allows everything, so a
/// shell that does not opt in behaves as if there were no hook.
///
/// Implementations must be cheap to clone: a pipeline stage runs against a clone of the
/// shell, which clones the interceptor with it. An interceptor with state should hold it
/// behind an [`Arc`](std::sync::Arc) so every clone observes the same state.
pub trait CommandInterceptor: Clone + Default + Send + Sync + 'static {
    /// Called once per command dispatch, builtins included.
    ///
    /// A loop made of builtins alone never spawns anything, so this is the host's only point
    /// of control over it. A denial ends the whole run.
    ///
    /// # Arguments
    ///
    /// * `name` - The command's name as written.
    fn before_command(&self, name: &str) -> (decision: CommandDecision)
        default_ensures
            decision == CommandDecision::Allow,
    {
        let _ = name;
        CommandDecision::Allow
    }

    /// Called immediately before an external command is spawned.
    ///
    /// A command name containing a path separator (`/bin/rm`, `./x`) bypasses both the
    /// `PATH` search and the builtin table, so gating on either is defeatable. This hook
    /// fires where both ways of finding a command meet, and cannot be circumvented by
    /// spelling a command differently.
    ///
    /// # Arguments
    ///
    /// * `program` - What is about to be executed: the resolved absolute path for a
    ///   `PATH` lookup, or the path as written for a path-separator command.
    /// * `args` - Arguments to the program, excluding `argv[0]`.
    fn before_exec(&self, program: &str, args: &[String]) -> (decision: ExecDecision)
        default_ensures
            decision == ExecDecision::Allow,
    {
        let _ = (program, args);
        ExecDecision::Allow
    }

    /// Called before a file is opened for a redirection or for sourcing.
    ///
    /// # Arguments
    ///
    /// * `path` - The bytes of the path.
    /// * `write` - Whether the file may be written through this opening.
    fn before_open(&self, path: &[u8], write: bool) -> (decision: OpenDecision)
        default_ensures
            decision == OpenDecision::Allow,
    {
        let _ = (path, write);
        OpenDecision::Allow
    }

    /// Whether programs have to be resolved and authorized before they replace the shell.
    fn is_confined(&self) -> (confined: bool)
        default_ensures
            !confined,
    {
        false
    }
}

/// Allow-all [`CommandInterceptor`]; equivalent to no interception.
#[derive(Clone, Copy, Debug, PartialEq, Eq, Structural)]
pub struct DefaultCommandInterceptor;

impl Default for DefaultCommandInterceptor {
    fn default() -> (res: Self)
        ensures
            res == DefaultCommandInterceptor,
    {
        DefaultCommandInterceptor
    }
}

impl CommandInterceptor for DefaultCommandInterceptor {

}

/// Trait for placeholder behavior (stub for future extension).
pub trait PlaceholderBehavior: Clone + Default + Send + Sync + 'static {

}

/// Default placeholder implementation.
#[derive(Clone, Copy, Debug, PartialEq, Eq, Structural)]
pub struct DefaultPlaceholder;

impl Default for DefaultPlaceholder {
    fn default() -> (res: Self)
        ensures
            res == DefaultPlaceholder,
    {
        DefaultPlaceholder
    }
}

impl PlaceholderBehavior for DefaultPlaceholder {

}

/// Whether `formatter` may display an error as `text`.
pub open spec fn error_display<EF: ErrorFormatter>(
    formatter: EF,
    error: Seq<char>,
    shell: ShellContext,
    text: Seq<char>,
) -> bool {
    exists|e: &str, t: String|
        e@ == error && t@ == text && #[trigger] call_ensures(
            EF::format_error,
            (&formatter, e, &shell),
            t,
        )
}

/// The default formatter has one display for an error, whatever shell it occurred in.
pub proof fn default_formatter_shows_the_error(
    formatter: DefaultErrorFormatter,
    error: Seq<char>,
    shell: ShellContext,
    text: Seq<char>,
)
    requires
        error_display(formatter, error, shell, text),
    ensures
        text == default_error_text(error),
{
}

/// Whether `interceptor` may answer `decision` when asked about the command `name`.
pub open spec fn command_verdict<CI: CommandInterceptor>(
    interceptor: CI,
    name: Seq<char>,
    decision: CommandDecision,
) -> bool {
    exists|n: &str|
        n@ == name && #[trigger] call_ensures(CI::before_command, (&interceptor, n), decision)
}

/// Whether `interceptor` may answer `decision` when asked about running `program` with `args`.
pub open spec fn exec_verdict<CI: CommandInterceptor>(
    interceptor: CI,
    program: Seq<char>,
    args: Seq<Seq<char>>,
    decision: ExecDecision,
) -> bool {
    exists|p: &str, a: &[String]|
        p@ == program && a.deep_view() == args && #[trigger] call_ensures(
            CI::before_exec,
            (&interceptor, p, a),
            decision,
        )
}

/// Whether `interceptor` may answer `decision` when asked about opening the file at `path`.
pub open spec fn open_verdict<CI: CommandInterceptor>(
    interceptor: CI,
    path: Seq<u8>,
    write: bool,
    decision: OpenDecision,
) -> bool {
    exists|p: &[u8]|
        p@ == path && #[trigger] call_ensures(
            CI::before_open,
            (&interceptor, p, write),
            decision,
        )
}

/// Whether `interceptor` may answer `confined` when asked whether it confines programs.
pub open spec fn confined_verdict<CI: CommandInterceptor>(interceptor: CI, confined: bool) -> bool {
    call_ensures(CI::is_confined, (&interceptor,), confined)
}

/// The default interceptor is the same as none: it has one answer to every question, and that
/// answer permits what was asked about.
pub proof fn default_interceptor_allows_everything(interceptor: DefaultCommandInterceptor)
    ensures
        forall|name: Seq<char>, decision: CommandDecision| #[trigger]
            command_verdict(interceptor, name, decision) ==> decision == CommandDecision::Allow,
        forall|program: Seq<char>, args: Seq<Seq<char>>, decision: ExecDecision| #[trigger]
            exec_verdict(interceptor, program, args, decision) ==> decision == ExecDecision::Allow,
        forall|path: Seq<u8>, write: bool, decision: OpenDecision| #[trigger]
            open_verdict(interceptor, path, write, decision) ==> decision == OpenDecision::Allow,
        forall|confined: bool| #[trigger] confined_verdict(interceptor, confined) ==> !confined,
{
}

/// Each hook of the default interceptor permits whatever it is asked about, and confines nothing.
pub proof fn default_hooks_permit_everything(
    interceptor: DefaultCommandInterceptor,
    name: &str,
    args: &[String],
    path: &[u8],
    write: bool,
    command: CommandDecision,
    exec: ExecDecision,
    open: OpenDecision,
    confined: bool,
)
    requires
        call_ensures(
            <DefaultCommandInterceptor as CommandInterceptor>::before_command,
            (&interceptor, name),
            command,
        ),
        call_ensures(
            <DefaultCommandInterceptor as CommandInterceptor>::before_exec,
            (&interceptor, name, args),
            exec,
        ),
        call_ensures(
            <DefaultCommandInterceptor as CommandInterceptor>::before_open,
            (&interceptor, path, write),
            open,
        ),
        call_ensures(
            <DefaultCommandInterceptor as CommandInterceptor>::is_confined,
            (&interceptor,),
            confined,
        ),
    ensures
        command is Allow,
        exec is Allow,
        open is Allow,
        !confined,
{
}

} // verus!
