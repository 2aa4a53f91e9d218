//! Failures of commands.

use vstd::prelude::*;

verus! {

/// Which failures of the operating system the shell tells apart.
#[derive(Clone, Copy, Debug, PartialEq, Eq, Structural)]
pub enum IoErrorKind {
    /// The file or program does not exist.
    NotFound,
    /// The operation was refused.
    PermissionDenied,
    /// Any other failure.
    Other,
}

/// A failure of an operation on a file or a process.
#[derive(Debug, PartialEq, Eq)]
pub struct IoError {
    /// What went wrong.
    pub kind: IoErrorKind,
    /// The failure in words.
    pub text: String,
}

/// An [`IoError`] with its text as characters.
pub struct IoErrorView {
    pub kind: IoErrorKind,
    pub text: Seq<char>,
}

impl View for IoError {
    type V = IoErrorView;

    open spec fn view(&self) -> IoErrorView {
        IoErrorView { kind: self.kind, text: self.text@ }
    }
}

/// Why a command did not run to completion.
#[derive(Debug, PartialEq, Eq)]
pub enum ErrorKind {
    /// The command of this name was refused for the given reason before it was dispatched.
    CommandDenied(String, String),
    /// The program was refused for the given reason before it was spawned.
    ExecDenied(String, String),
    /// No command of this name exists.
    CommandNotFound(String),
    /// The shell lacks this feature.
    Unimplemented(&'static str),
    /// The operating system reported a failure.
    Io(IoError),
}

/// An [`ErrorKind`] with its texts as characters.
pub enum ErrorKindView {
    CommandDenied(Seq<char>, Seq<char>),
    ExecDenied(Seq<char>, Seq<char>),
    CommandNotFound(Seq<char>),
    Unimplemented(Seq<char>),
    Io(IoErrorView),
}

impl View for ErrorKind {
    type V = ErrorKindView;

    open spec fn view(&self) -> ErrorKindView {
        match *self {
            ErrorKind::CommandDenied(name, reason) => ErrorKindView::CommandDenied(name@, reason@),
            ErrorKind::ExecDenied(program, reason) => ErrorKindView::ExecDenied(program@, reason@),
            ErrorKind::CommandNotFound(name) => ErrorKindView::CommandNotFound(name@),
            ErrorKind::Unimplemented(feature) => ErrorKindView::Unimplemented(feature@),
            ErrorKind::Io(error) => ErrorKindView::Io(error@),
        }
    }
}

/// A result whose values have views, seen through these.
pub open spec fn result_view<T: View>(result: Result<T, ErrorKind>) -> Result<
    T::V,
    ErrorKindView,
> {
    match result {
        Ok(value) => Ok(value@),
        Err(error) => Err(error@),
    }
}

} // verus!
