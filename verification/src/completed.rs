//! The result of running shell code.

use vstd::prelude::*;
use crate::text::{debug_form, debug_text, decimal, to_decimal};

verus! {

/// Result of running shell code: captured output plus the exit status.
#[derive(Debug, PartialEq, Eq)]
pub struct CompletedCommand {
    /// What was written to the standard output.
    pub stdout: String,
    /// What was written to the standard error.
    pub stderr: String,
    /// The exit status.
    pub exit_code: u8,
}

/// A [`CompletedCommand`] with its texts as characters.
pub struct CompletedCommandView {
    pub stdout: Seq<char>,
    pub stderr: Seq<char>,
    pub exit_code: u8,
}

impl View for CompletedCommand {
    type V = CompletedCommandView;

    open spec fn view(&self) -> CompletedCommandView {
        CompletedCommandView {
            stdout: self.stdout@,
            stderr: self.stderr@,
            exit_code: self.exit_code,
        }
    }
}

/// The form in which a result is shown, given the quoted forms of its texts.
pub open spec fn shown(exit_code: u8, stdout: Seq<char>, stderr: Seq<char>) -> Seq<char> {
    "CompletedCommand(exit_code="@ + decimal(exit_code as nat) + ", stdout="@ + stdout
        + ", stderr="@ + stderr + ")"@
}

/// Composes the form in which a result is shown from the quoted forms of its texts.
pub fn show(exit_code: u8, stdout: &str, stderr: &str) -> (res: String)
    ensures
        res@ == shown(exit_code, stdout@, stderr@),
{
    "CompletedCommand(exit_code=".to_string().concat(to_decimal(exit_code).as_str()).concat(
        ", stdout=",
    ).concat(stdout).concat(", stderr=").concat(stderr).concat(")")
}

impl CompletedCommand {
    /// True when the command exited 0.
    pub fn success(&self) -> (res: bool)
        ensures
            res == (self.exit_code == 0),
    {
        self.exit_code == 0
    }

    /// The truth value of the result: that of its success.
    pub fn __bool__(&self) -> (res: bool)
        ensures
            res == (self.exit_code == 0),
    {
        self.exit_code == 0
    }

    /// The result with its texts quoted.
    pub fn __repr__(&self) -> (res: String)
        ensures
            res@ == shown(self.exit_code, debug_text(self.stdout@), debug_text(self.stderr@)),
    {
        let stdout = debug_form(self.stdout.as_str());
        let stderr = debug_form(self.stderr.as_str());
        show(self.exit_code, stdout.as_str(), stderr.as_str())
    }
}

/// A result is shown with its parts named and in order: the exit code in decimal digits, then the
/// two texts in the forms given, with nothing added or left out.
pub proof fn results_are_shown_in_full(
    exit_code: u8,
    stdout: &str,
    stderr: &str,
    number: String,
    res: String,
)
    requires
        call_ensures(to_decimal, (exit_code,), number),
        call_ensures(show, (exit_code, stdout, stderr), res),
    ensures
        res@ == "CompletedCommand(exit_code="@ + number@ + ", stdout="@ + stdout@ + ", stderr="@
            + stderr@ + ")"@,
{
}

/// A result is shown with the quoted forms of its own texts, each in its own place.
pub proof fn results_are_shown_quoted(
    result: CompletedCommand,
    stdout: &str,
    stderr: &str,
    quoted: String,
    res: String,
)
    requires
        stdout@ == debug_text(result.stdout@),
        stderr@ == debug_text(result.stderr@),
        call_ensures(show, (result.exit_code, stdout, stderr), quoted),
        call_ensures(CompletedCommand::__repr__, (&result,), res),
    ensures
        res@ == quoted@,
        res@ == "CompletedCommand(exit_code="@ + decimal(result.exit_code as nat) + ", stdout="@
            + debug_text(result.stdout@) + ", stderr="@ + debug_text(result.stderr@) + ")"@,
{
}

/// A result is true exactly where it is a success, and it is a success exactly with exit code
/// zero; its texts have no say in it.
pub proof fn success_is_exit_code_zero(result: CompletedCommand, success: bool, truth: bool)
    requires
        call_ensures(CompletedCommand::success, (&result,), success),
        call_ensures(CompletedCommand::__bool__, (&result,), truth),
    ensures
        success <==> result.exit_code == 0,
        truth <==> success,
{
}

} // verus!
