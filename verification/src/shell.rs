//! The parts of a shell that its hooks and builtins look at.

use vstd::prelude::*;
use crate::extensions::{
    error_display, CommandInterceptor, DefaultErrorFormatter, ErrorFormatter, ShellExtensions,
    ShellExtensionsImpl,
};

verus! {

/// What a shell tells about itself, whatever its extensions are.
#[derive(Clone, Copy, Debug, PartialEq, Eq, Structural)]
pub struct ShellContext {
    /// Whether this instance runs as a subshell of another one.
    pub is_subshell: bool,
}

/// A shell instance with its extensions.
pub struct Shell<SE: ShellExtensions> {
    context: ShellContext,
    error_formatter: SE::ErrorFormatter,
    command_interceptor: SE::CommandInterceptor,
}

impl<SE: ShellExtensions> Shell<SE> {
    /// The extension-independent part of the shell.
    pub closed spec fn spec_context(&self) -> ShellContext {
        self.context
    }

    /// The formatter that the shell was built with.
    pub closed spec fn formatter(&self) -> SE::ErrorFormatter {
        self.error_formatter
    }

    /// The interceptor that the shell was built with.
    pub closed spec fn interceptor(&self) -> SE::CommandInterceptor {
        self.command_interceptor
    }

    /// Builds a shell from its extensions.
    pub fn new(
        context: ShellContext,
        error_formatter: SE::ErrorFormatter,
        command_interceptor: SE::CommandInterceptor,
    ) -> (shell: Self)
        ensures
            shell.spec_context() == context,
            shell.formatter() == error_formatter,
            shell.interceptor() == command_interceptor,
    {
        Shell { context, error_formatter, command_interceptor }
    }

    /// The interceptor that is consulted before operations.
    pub fn command_interceptor(&self) -> (interceptor: &SE::CommandInterceptor)
        ensures
            *interceptor == self.interceptor(),
    {
        &self.command_interceptor
    }

    /// Displays an error as the shell's formatter has it, in the context of this shell.
    pub fn format_error(&self, error: &str) -> (text: String)
        ensures
            error_display(self.formatter(), error@, self.spec_context(), text@),
    {
        self.error_formatter.format_error(error, &self.context)
    }

    /// Whether this instance runs as a subshell of another one.
    pub fn is_subshell(&self) -> (subshell: bool)
        ensures
            subshell == self.spec_context().is_subshell,
    {
        self.context.is_subshell
    }
}

impl<SE: ShellExtensions> Clone for Shell<SE> {
    /// Clones the shell together with its extensions.
    fn clone(&self) -> (res: Self)
        ensures
            res.spec_context() == self.spec_context(),
            cloned(self.formatter(), res.formatter()),
            cloned(self.interceptor(), res.interceptor()),
    {
        Shell {
            context: self.context,
            error_formatter: self.error_formatter.clone(),
            command_interceptor: self.command_interceptor.clone(),
        }
    }
}

/// A shell is what it was built from: it tells whether it is a subshell, and it consults the
/// interceptor it was given.
pub proof fn shells_are_what_they_were_built_from<SE: ShellExtensions>(
    context: ShellContext,
    error_formatter: SE::ErrorFormatter,
    command_interceptor: SE::CommandInterceptor,
    shell: Shell<SE>,
    subshell: bool,
    interceptor: &SE::CommandInterceptor,
)
    requires
        call_ensures(
            Shell::<SE>::new,
            (context, error_formatter, command_interceptor),
            shell,
        ),
        call_ensures(Shell::<SE>::is_subshell, (&shell,), subshell),
        call_ensures(Shell::<SE>::command_interceptor, (&shell,), interceptor),
    ensures
        subshell == context.is_subshell,
        *interceptor == command_interceptor,
        shell.spec_context() == context,
        shell.interceptor() == command_interceptor,
        shell.formatter() == error_formatter,
{
}

/// A shell shows an error as the formatter that it was given does for this very error and this
/// very shell.
pub proof fn errors_are_shown_by_the_given_formatter<SE: ShellExtensions>(
    context: ShellContext,
    error_formatter: SE::ErrorFormatter,
    command_interceptor: SE::CommandInterceptor,
    shell: Shell<SE>,
    error: &str,
    text: String,
)
    requires
        call_ensures(
            Shell::<SE>::new,
            (context, error_formatter, command_interceptor),
            shell,
        ),
        call_ensures(Shell::<SE>::format_error, (&shell, error), text),
    ensures
        exists|given: &str, shown: String|
            given@ == error@ && shown@ == text@ && #[trigger] call_ensures(
                SE::ErrorFormatter::format_error,
                (&error_formatter, given, &context),
                shown,
            ),
{
}

/// With the default formatter every shell shows an error after the word "error", on a line of its
/// own.
pub proof fn default_shells_show_errors_on_a_line<CI: CommandInterceptor>(
    shell: Shell<ShellExtensionsImpl<DefaultErrorFormatter, CI>>,
    error: &str,
    text: String,
)
    requires
        call_ensures(
            Shell::<ShellExtensionsImpl<DefaultErrorFormatter, CI>>::format_error,
            (&shell, error),
            text,
        ),
    ensures
        text@ == "error: "@ + error@ + "\n"@,
{
}

} // verus!
